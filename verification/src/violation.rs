//! Violation records and the exact text of their messages.

use vstd::prelude::*;

verus! {

/// The three ways unvalidated request input can be used.
#[derive(Debug, Clone, Copy)]
pub enum ViolationKind {
    /// A bare `req.<field>` use.
    DirectAccess,
    /// A bare use of a local alias of a request field.
    Alias,
    /// A property access on a local alias of a request field.
    IndirectAccess,
}

/// One place where unvalidated request input is used.  Immutable once
/// created; violations accumulate into a flat ordered sequence and are never
/// deduplicated.
#[derive(Debug)]
pub struct Violation {
    pub file: String,
    pub line: usize,
    pub column: usize,
    pub kind: ViolationKind,
    pub message: String,
}

/// The mathematical image of a violation record.
pub struct ViolationData {
    pub file: Seq<char>,
    pub line: int,
    pub column: int,
    pub kind: ViolationKind,
    pub message: Seq<char>,
}

impl View for Violation {
    type V = ViolationData;

    open spec fn view(&self) -> ViolationData {
        ViolationData {
            file: self.file@,
            line: self.line as int,
            column: self.column as int,
            kind: self.kind,
            message: self.message@,
        }
    }
}

impl DeepView for Violation {
    type V = ViolationData;

    open spec fn deep_view(&self) -> ViolationData {
        self.view()
    }
}

/// Message of a direct access: `Unvalidated direct access: req.<field>`.
pub open spec fn spec_direct_access_message(field: Seq<char>) -> Seq<char> {
    "Unvalidated direct access: req."@ + field
}

/// Message of an indirect access:
/// `Unvalidated indirect access: <alias>.<prop> → req.<field>`.
pub open spec fn spec_indirect_access_message(
    alias: Seq<char>,
    prop: Seq<char>,
    field: Seq<char>,
) -> Seq<char> {
    "Unvalidated indirect access: "@ + alias + "."@ + prop + " → req."@ + field
}

/// Message of an aliased access:
/// ``Unvalidated aliased access to req.<field> via `<name>` ``.
pub open spec fn spec_alias_access_message(field: Seq<char>, name: Seq<char>) -> Seq<char> {
    "Unvalidated aliased access to req."@ + field + " via `"@ + name + "`"@
}

/// Builds the direct-access message for `field`.
pub fn direct_access_message(field: &str) -> (r: String)
    ensures
        r@ == spec_direct_access_message(field@),
{
    let mut r = String::from_str("Unvalidated direct access: req.");
    r.append(field);
    r
}

/// Builds the indirect-access message for an access `alias.prop` whose base
/// was derived from `req.field`.
pub fn indirect_access_message(alias: &str, prop: &str, field: &str) -> (r: String)
    ensures
        r@ == spec_indirect_access_message(alias@, prop@, field@),
{
    let mut r = String::from_str("Unvalidated indirect access: ");
    r.append(alias);
    r.append(".");
    r.append(prop);
    r.append(" → req.");
    r.append(field);
    r
}

/// Builds the aliased-access message for a bare use of `name`, an alias of
/// `req.field`.
pub fn alias_access_message(field: &str, name: &str) -> (r: String)
    ensures
        r@ == spec_alias_access_message(field@, name@),
{
    let mut r = String::from_str("Unvalidated aliased access to req.");
    r.append(field);
    r.append(" via `");
    r.append(name);
    r.append("`");
    r
}

} // verus!
