//! The identity pair and the mapping directive built from two of them.

use vstd::prelude::*;

verus! {

/// A committer/author identity: a display name and an email address.
///
/// No syntactic validation is performed on either field; the external
/// rewrite engine is the authority on acceptable syntax, and empty strings
/// are passed through verbatim.
pub struct IdentityPair {
    pub name: String,
    pub email: String,
}

/// Mathematical model of an [`IdentityPair`]: the two fields as
/// character sequences.
pub struct IdentityModel {
    pub name: Seq<char>,
    pub email: Seq<char>,
}

impl View for IdentityPair {
    type V = IdentityModel;

    open spec fn view(&self) -> IdentityModel {
        IdentityModel { name: self.name@, email: self.email@ }
    }
}

/// The single-line mapping directive that binds `new` to `old`:
/// `"{new.name} <{new.email}> {old.name} <{old.email}>\n"`.
pub open spec fn directive_model(old: IdentityModel, new: IdentityModel) -> Seq<char> {
    new.name + " <"@ + new.email + "> "@ + old.name + " <"@ + old.email + ">\n"@
}

/// Builds the mapping directive for one invocation: exactly one line,
/// referencing exactly the four supplied identity fields.
pub fn build_directive(old: &IdentityPair, new: &IdentityPair) -> (r: String)
    ensures
        r@ == directive_model(old@, new@),
{
    let mut s = new.name.clone();
    s.append(" <");
    s.append(new.email.as_str());
    s.append("> ");
    s.append(old.name.as_str());
    s.append(" <");
    s.append(old.email.as_str());
    s.append(">\n");
    s
}

} // verus!
