//! The bindings handed to a template.

use vstd::prelude::*;
use crate::json::{json_model, Node};

verus! {

/// `tera::Context`, the bindings of one rendering. It is carried as it is;
/// what it binds is told by `context_bindings`.
#[verifier::external_type_specification]
#[verifier::external_body]
pub struct ExContext(tera::Context);

/// The bindings of a rendering context: each bound name with what its value
/// holds.
pub uninterp spec fn context_bindings(context: tera::Context) -> Map<Seq<char>, Node>;

/// No bindings at all.
pub open spec fn no_bindings() -> Map<Seq<char>, Node> {
    Map::empty()
}

/// `tera::Context::new`: a context with no bindings.
#[verifier::external_body]
pub(crate) fn context_new() -> (context: tera::Context)
    ensures
        context_bindings(context) == no_bindings(),
{
    tera::Context::new()
}

/// `tera::Context::insert` with a JSON value: binds `name` to that value,
/// replacing what the name was bound to before and leaving other names alone.
#[verifier::external_body]
pub(crate) fn context_insert(context: &mut tera::Context, name: &str, value: &serde_json::Value)
    ensures
        context_bindings(*final(context)) == context_bindings(*old(context)).insert(
            name@,
            json_model(*value),
        ),
{
    context.insert(name, value);
}

} // verus!
