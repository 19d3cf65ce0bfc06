//! What becomes of a rendering.
//!
//! The templates are rendered by `tera`, and by whoever runs the engine: a
//! template may call whatever its engine has registered, so the rendering
//! itself is not done here. This module takes each outcome of a rendering as
//! it comes: the text as it is, a failure as the end of the run.

use vstd::prelude::*;
use vstd::string::StringExecFns;
use crate::error::MenuError;

verus! {

/// `tera::Error`, the failure of a rendering. It is carried as it is.
#[verifier::external_type_specification]
#[verifier::external_body]
pub struct ExTeraError(tera::Error);

/// The debug text of a `tera::Error`, which names the error and what caused
/// it. Nothing is claimed of the text.
#[verifier::external_body]
pub(crate) fn error_detail(error: &tera::Error) -> (detail: String) {
    format!("{:?}", error)
}

/// What becomes of one rendering: the text as it came, or the failure of the
/// named template.
pub fn rendered_or_error(outcome: Result<String, tera::Error>, template_name: &str) -> (result:
    Result<String, MenuError>)
    ensures
        match outcome {
            Ok(text) => result == Ok::<String, MenuError>(text),
            Err(_) => result matches Err(MenuError::TemplateRenderError { template, .. })
                && template@ == template_name@,
        },
{
    match outcome {
        Ok(text) => Ok(text),
        Err(error) => Err(
            MenuError::TemplateRenderError {
                template: template_name.to_owned(),
                detail: error_detail(&error),
            },
        ),
    }
}

/// Joins one rendering to the blocks rendered before it: the text goes after
/// them as it came, and a failure takes the place of them all.
pub fn join_rendered(menus: String, outcome: Result<String, tera::Error>, template_name: &str) -> (result:
    Result<String, MenuError>)
    ensures
        match outcome {
            Ok(text) => result matches Ok(joined) && joined@ == menus@ + text@,
            Err(_) => result matches Err(MenuError::TemplateRenderError { template, .. })
                && template@ == template_name@,
        },
{
    let text = rendered_or_error(outcome, template_name)?;
    let mut joined = menus;
    joined.append(text.as_str());
    Ok(joined)
}

/// What an outcome holds: the rendered text, or nothing when the rendering
/// failed.
pub open spec fn outcome_text(outcome: Result<String, tera::Error>) -> Option<Seq<char>> {
    match outcome {
        Ok(text) => Some(text@),
        Err(_) => None,
    }
}

/// What the outcomes of a list hold, in the list's order.
pub open spec fn outcome_texts(outcomes: Seq<Result<String, tera::Error>>) -> Seq<
    Option<Seq<char>>,
> {
    outcomes.map_values(|outcome: Result<String, tera::Error>| outcome_text(outcome))
}

/// Every rendering of the list succeeded.
pub open spec fn all_rendered(texts: Seq<Option<Seq<char>>>) -> bool {
    forall|i: int| 0 <= i < texts.len() ==> (#[trigger] texts[i]) is Some
}

/// The rendered texts of a list, one after the other in the list's order,
/// with nothing between them.
pub open spec fn joined(texts: Seq<Option<Seq<char>>>) -> Seq<char>
    decreases texts.len(),
{
    if texts.len() == 0 {
        Seq::empty()
    } else {
        joined(texts.drop_last()) + match texts.last() {
            Some(text) => text,
            None => Seq::empty(),
        }
    }
}

/// The rendered blocks of one group are joined in the order of their
/// outcomes, which is the order of the group's events; no block is left out,
/// doubled or moved. A single failed rendering fails the whole group: the
/// blocks rendered before it are not handed on.
pub fn generate_menus(outcomes: Vec<Result<String, tera::Error>>, template_name: &str) -> (result:
    Result<String, MenuError>)
    ensures
        all_rendered(outcome_texts(outcomes@)) ==> (result matches Ok(menus) && menus@ == joined(
            outcome_texts(outcomes@),
        )),
        !all_rendered(outcome_texts(outcomes@)) ==> (result matches Err(
            MenuError::TemplateRenderError { template, .. },
        ) && template@ == template_name@),
{
    broadcast use vstd::std_specs::vec::group_vec_axioms;

    let ghost texts = outcome_texts(outcomes@);
    let ghost given = outcomes@;
    let mut menus = String::new();
    assert(texts.take(0) =~= Seq::<Option<Seq<char>>>::empty());
    for outcome in it: outcomes.into_iter()
        invariant
            it.seq() == given,
            texts == outcome_texts(given),
            all_rendered(texts.take(it.index())),
            menus@ == joined(texts.take(it.index())),
    {
        proof {
            let done = texts.take(it.index());
            let next = texts.take(it.index() + 1);
            assert(next.drop_last() =~= done);
            assert(next.last() == outcome_text(outcome));
            assert(texts[it.index()] == outcome_text(outcome));
            if outcome is Ok {
                assert forall|k: int| 0 <= k < next.len() implies (#[trigger] next[k]) is Some by {
                    if k < it.index() {
                        assert(done[k] is Some);
                    }
                }
            }
        }
        menus = join_rendered(menus, outcome, template_name)?;
    }
    proof {
        assert(texts.take(texts.len() as int) =~= texts);
    }
    Ok(menus)
}

} // verus!
