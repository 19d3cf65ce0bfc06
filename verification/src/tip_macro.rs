//! Macro fragments derived from tips.
//!
//! A menu option can carry a list of chat macros on one line. Each tip gives
//! one entry, `macro <identifier> say <content>`, where the identifier is the
//! tip's name without its whitespace. Entries are joined by `$$`, with nothing
//! after the last one. The consumer accepts no other layout and fails without
//! a message when it is given one.

use vstd::prelude::*;
use vstd::string::StringExecFns;
use crate::error::MenuError;
use crate::event::{tips_view, Tip, TipView};
use crate::order::{all_pass, first_failing, lemma_first_failing};

verus! {

/// Whether a character is whitespace: whether it has the Unicode property
/// `White_Space`. These are the tab, the line feed, the vertical tab, the form
/// feed, the carriage return, the space, the next-line control, the no-break
/// space, the ogham space mark, the spaces from the en quad to the hair
/// space, the line and paragraph separators, the narrow no-break space, the
/// medium mathematical space and the ideographic space.
pub open spec fn is_whitespace(c: char) -> bool {
    let code = c as u32;
    ||| 0x0009 <= code <= 0x000D
    ||| code == 0x0020
    ||| code == 0x0085
    ||| code == 0x00A0
    ||| code == 0x1680
    ||| 0x2000 <= code <= 0x200A
    ||| code == 0x2028
    ||| code == 0x2029
    ||| code == 0x202F
    ||| code == 0x205F
    ||| code == 0x3000
}

/// Tells whether a character is whitespace.
pub fn char_is_whitespace(c: char) -> (whitespace: bool)
    ensures
        whitespace == is_whitespace(c),
{
    let code = c as u32;
    (0x0009 <= code && code <= 0x000D) || code == 0x0020 || code == 0x0085 || code == 0x00A0
        || code == 0x1680 || (0x2000 <= code && code <= 0x200A) || code == 0x2028 || code
        == 0x2029 || code == 0x202F || code == 0x205F || code == 0x3000
}

/// `String::push` appends the character to the end of the text.
pub assume_specification[ String::push ](text: &mut String, c: char)
    ensures
        final(text)@ == old(text)@.push(c),
;

/// The word that opens an entry, with the space after it.
pub open spec fn macro_keyword() -> Seq<char> {
    "macro "@
}

/// The word between an entry's identifier and its content, with the spaces
/// around it.
pub open spec fn say_keyword() -> Seq<char> {
    " say "@
}

/// The two characters that stand between two entries.
pub open spec fn separator() -> Seq<char> {
    "$$"@
}

/// The macro identifier of a tip's name: the name with every whitespace
/// character deleted, the others in their order.
pub open spec fn macro_identifier(name: Seq<char>) -> Seq<char> {
    name.filter(|c: char| !is_whitespace(c))
}

/// A name is usable when its identifier is not empty.
pub open spec fn valid_tip_name(name: Seq<char>) -> bool {
    macro_identifier(name).len() > 0
}

/// The entry of one tip.
pub open spec fn macro_entry(tip: TipView) -> Seq<char> {
    macro_keyword() + macro_identifier(tip.name) + say_keyword() + tip.content
}

/// The entries of `tips` joined by the separator: nothing for no tips, and no
/// separator before the first entry or after the last.
pub open spec fn macro_fragment(tips: Seq<TipView>) -> Seq<char>
    decreases tips.len(),
{
    if tips.len() == 0 {
        Seq::empty()
    } else if tips.len() == 1 {
        macro_entry(tips[0])
    } else {
        macro_fragment(tips.drop_last()) + separator() + macro_entry(tips.last())
    }
}

/// Every entry followed by the separator, in order.
pub open spec fn terminated_entries(tips: Seq<TipView>) -> Seq<char>
    decreases tips.len(),
{
    if tips.len() == 0 {
        Seq::empty()
    } else {
        terminated_entries(tips.drop_last()) + macro_entry(tips.last()) + separator()
    }
}

/// Every tip of the list has a usable name.
pub open spec fn all_names_valid(tips: Seq<TipView>) -> bool {
    forall|i: int| 0 <= i < tips.len() ==> valid_tip_name(#[trigger] tips[i].name)
}

/// The place of the first tip whose name is not usable, or the list's length
/// when every name is.
pub open spec fn first_invalid(tips: Seq<TipView>) -> int {
    first_failing(tips, |tip: TipView| valid_tip_name(tip.name))
}

/// What formatting a tip list gives: the fragment when every name is usable,
/// else the first unusable name.
pub open spec fn formatted(tips: Seq<TipView>) -> Result<Seq<char>, Seq<char>> {
    if all_names_valid(tips) {
        Ok(macro_fragment(tips))
    } else {
        Err(tips[first_invalid(tips)].name)
    }
}

/// The fragment of two tips is the entry of the first, one separator and the
/// entry of the second, with nothing before, between or after them.
pub proof fn lemma_fragment_of_two(first: TipView, second: TipView)
    ensures
        macro_fragment(seq![first, second]) == macro_entry(first) + separator() + macro_entry(
            second,
        ),
{
    let both = seq![first, second];
    assert(both.drop_last() =~= seq![first]);
    assert(macro_fragment(both.drop_last()) == macro_entry(first));
}

/// A fragment closed by one more separator is the entries each followed by
/// the separator. So the fragment is that text without its final separator,
/// and the separators between entries stay as they are.
pub proof fn lemma_fragment_drops_final_separator(tips: Seq<TipView>)
    requires
        tips.len() > 0,
    ensures
        macro_fragment(tips) + separator() == terminated_entries(tips),
    decreases tips.len(),
{
    if tips.len() == 1 {
        assert(tips.drop_last().len() == 0);
        assert(terminated_entries(tips.drop_last()) == Seq::<char>::empty());
        assert(terminated_entries(tips) =~= macro_entry(tips[0]) + separator());
    } else {
        lemma_fragment_drops_final_separator(tips.drop_last());
        assert(macro_fragment(tips) + separator() =~= (macro_fragment(tips.drop_last())
            + separator()) + macro_entry(tips.last()) + separator());
    }
}

/// A fragment ends with the entry of the last tip: no separator follows it.
pub proof fn lemma_fragment_ends_with_last_entry(tips: Seq<TipView>)
    requires
        tips.len() > 0,
    ensures
        macro_fragment(tips).len() >= macro_entry(tips.last()).len(),
        macro_fragment(tips).skip(macro_fragment(tips).len() - macro_entry(tips.last()).len())
            == macro_entry(tips.last()),
{
    let entry = macro_entry(tips.last());
    if tips.len() == 1 {
        assert(macro_fragment(tips).skip(0) =~= entry);
    } else {
        let head = macro_fragment(tips.drop_last()) + separator();
        assert(macro_fragment(tips) == head + entry);
        assert((head + entry).skip(head.len() as int) =~= entry);
    }
}

/// A name that holds a character that is no whitespace is usable.
pub proof fn lemma_name_with_character_is_valid(name: Seq<char>, place: int)
    requires
        0 <= place < name.len(),
        !is_whitespace(name[place]),
    ensures
        valid_tip_name(name),
{
    let keep = |c: char| !is_whitespace(c);
    name.lemma_filter_contains(keep, place);
}

/// A name is usable exactly when one of its characters is no whitespace.
pub proof fn lemma_valid_name_has_character(name: Seq<char>)
    ensures
        valid_tip_name(name) <==> exists|place: int|
            0 <= place < name.len() && !is_whitespace(#[trigger] name[place]),
{
    let keep = |c: char| !is_whitespace(c);
    if valid_tip_name(name) {
        name.lemma_filter_pred(keep, 0);
        name.lemma_filter_contains_rev(keep, name.filter(keep)[0]);
        let place = choose|place: int| 0 <= place < name.len() && name[place] == name.filter(keep)[0];
        assert(!is_whitespace(name[place]));
    }
    if exists|place: int| 0 <= place < name.len() && !is_whitespace(#[trigger] name[place]) {
        let place = choose|place: int| 0 <= place < name.len() && !is_whitespace(#[trigger] name[place]);
        lemma_name_with_character_is_valid(name, place);
    }
}

/// An identifier holds no whitespace, whatever the name was.
pub proof fn lemma_identifier_has_no_whitespace(name: Seq<char>)
    ensures
        forall|i: int|
            0 <= i < macro_identifier(name).len() ==> !is_whitespace(
                #[trigger] macro_identifier(name)[i],
            ),
{
    let pred = |c: char| !is_whitespace(c);
    assert forall|i: int| 0 <= i < macro_identifier(name).len() implies !is_whitespace(
        #[trigger] macro_identifier(name)[i],
    ) by {
        name.lemma_filter_pred(pred, i);
    }
}

/// Where the first unusable name stands.
pub proof fn lemma_first_invalid(tips: Seq<TipView>)
    ensures
        0 <= first_invalid(tips) <= tips.len(),
        forall|i: int| 0 <= i < first_invalid(tips) ==> valid_tip_name(#[trigger] tips[i].name),
        first_invalid(tips) < tips.len() ==> !valid_tip_name(tips[first_invalid(tips)].name),
        first_invalid(tips) == tips.len() <==> all_names_valid(tips),
{
    let ok = |tip: TipView| valid_tip_name(tip.name);
    lemma_first_failing(tips, ok);
    if all_names_valid(tips) {
        assert forall|i: int| 0 <= i < tips.len() implies ok(#[trigger] tips[i]) by {
            assert(valid_tip_name(tips[i].name));
        }
    }
    if all_pass(tips, ok) {
        assert forall|i: int| 0 <= i < tips.len() implies valid_tip_name(
            #[trigger] tips[i].name,
        ) by {
            assert(ok(tips[i]));
        }
    }
    assert forall|i: int| 0 <= i < first_invalid(tips) implies valid_tip_name(
        #[trigger] tips[i].name,
    ) by {
        assert(ok(tips[i]));
    }
}

/// Derives the macro identifier of a tip's name.
pub fn derive_identifier(name: &str) -> (identifier: String)
    ensures
        identifier@ == macro_identifier(name@),
{
    broadcast use vstd::string::group_string_axioms;

    let ghost keep = |c: char| !is_whitespace(c);
    let mut identifier = String::new();
    assert(name@.take(0).filter(keep) =~= Seq::<char>::empty()) by {
        reveal(Seq::filter);
    }
    for c in it: name.chars()
        invariant
            it.seq() == name@,
            keep == (|c: char| !is_whitespace(c)),
            identifier@ == name@.take(it.index()).filter(keep),
    {
        proof {
            let done = name@.take(it.index());
            assert(name@.take(it.index() + 1) =~= done.push(c));
            done.lemma_filter_push(c, keep);
        }
        if !char_is_whitespace(c) {
            identifier.push(c);
        }
    }
    assert(name@.take(name@.len() as int) =~= name@);
    identifier
}

impl Tip {
    /// The macro entry of this tip, or the failure that its name leaves no
    /// identifier.
    pub fn macro_entry(&self) -> (result: Result<String, MenuError>)
        ensures
            valid_tip_name(self@.name) ==> (result matches Ok(entry) && entry@ == macro_entry(
                self@,
            )),
            !valid_tip_name(self@.name) ==> (result matches Err(
                MenuError::InvalidTipName { name },
            ) && name@ == self@.name),
    {
        let identifier = derive_identifier(self.name.as_str());
        if identifier.as_str().unicode_len() == 0 {
            return Err(MenuError::InvalidTipName { name: self.name.clone() });
        }
        let mut entry = String::from_str("macro ");
        entry.append(identifier.as_str());
        entry.append(" say ");
        entry.append(self.content.as_str());
        Ok(entry)
    }
}

/// Formats the tips of one event as a macro fragment. The tips keep their
/// order. No tips give the empty fragment. A name without an identifier ends
/// the formatting with the first such name.
pub fn format_tip_macros(tips: &Vec<Tip>) -> (result: Result<String, MenuError>)
    ensures
        match formatted(tips_view(tips@)) {
            Ok(fragment) => result matches Ok(text) && text@ == fragment,
            Err(bad_name) => result matches Err(MenuError::InvalidTipName { name }) && name@
                == bad_name,
        },
{
    let ghost all = tips_view(tips@);
    let mut fragment = String::new();
    let mut i: usize = 0;
    while i < tips.len()
        invariant
            i <= tips.len(),
            all == tips_view(tips@),
            all.len() == tips.len(),
            fragment@ == macro_fragment(all.take(i as int)),
            all_names_valid(all.take(i as int)),
        decreases tips.len() - i,
    {
        let ghost done = all.take(i as int);
        let ghost next = all.take(i + 1);
        proof {
            assert(next.drop_last() =~= done);
            assert(next.last() == all[i as int]);
            assert(all[i as int] == tips@[i as int]@);
        }
        match tips[i].macro_entry() {
            Ok(entry) => {
                if i > 0 {
                    fragment.append("$$");
                }
                fragment.append(entry.as_str());
                proof {
                    assert forall|k: int| 0 <= k < next.len() implies valid_tip_name(
                        #[trigger] next[k].name,
                    ) by {
                        if k < i {
                            assert(done[k] == next[k]);
                        }
                    }
                    if i == 0 {
                        assert(fragment@ =~= macro_entry(next[0]));
                    }
                }
            },
            Err(error) => {
                proof {
                    lemma_first_invalid(all);
                    let first = first_invalid(all);
                    if first < i {
                        assert(done[first] == all[first]);
                    }
                    if first > i {
                        assert(valid_tip_name(all[i as int].name));
                    }
                    assert(first == i);
                }
                return Err(error);
            },
        }
        i += 1;
    }
    proof {
        assert(all.take(i as int) =~= all);
    }
    Ok(fragment)
}

} // verus!
