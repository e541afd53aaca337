//! The quotes of which one is shown at a time, picked at random.

use rand::seq::SliceRandom;
use vstd::prelude::*;

verus! {

/// How many quotes there are.
pub const QUOTE_COUNT: usize = 10;

/// The quote at a place of the list; places past the end hold the last.
pub open spec fn quote_text(i: nat) -> Seq<char> {
    if i == 0 {
        "Talk is cheap. Show me the code. - Linus Torvalds"@
    } else if i == 1 {
        "Given enough eyeballs, all bugs are shallow. - Eric S. Raymond"@
    } else if i == 2 {
        "Software is like sex: it's better when it's free. - Linus Torvalds"@
    } else if i == 3 {
        "The Linux philosophy is 'Laugh in the face of danger'. Oops. Wrong One. 'Do it yourself'. Yes, that's it. - Linus Torvalds"@
    } else if i == 4 {
        "Intelligence is the ability to avoid doing work, yet getting the work done. - Linus Torvalds"@
    } else if i == 5 {
        "A computer is like air conditioning – it becomes useless when you open Windows. - Linus Torvalds"@
    } else if i == 6 {
        "Microsoft isn't evil, they just make really crappy operating systems. - Linus Torvalds"@
    } else if i == 7 {
        "If you think your users are idiots, only idiots will use it. - Linus Torvalds"@
    } else if i == 8 {
        "I'm doing a (free) operating system (just a hobby, won't be big and professional like gnu) - Linus Torvalds"@
    } else {
        "The most important thing in Open Source is that people are having fun and feeling like they're part of a community. - Mark Shuttleworth"@
    }
}

/// What is shown where no quote could be picked.
pub open spec fn no_quote() -> Seq<char> {
    "No quote available"@
}

/// Whether a text is one of the quotes.
pub open spec fn is_quote(text: Seq<char>) -> bool {
    exists|i: nat| i < QUOTE_COUNT && text == quote_text(i)
}

/// `SliceRandom::choose` with the generator of the thread: one item of the
/// slice, whichever the generator picks, and `None` for the empty slice
/// only.
#[verifier::external_body]
fn choose_one(items: &[&'static str]) -> (r: Option<&'static str>)
    ensures
        match r {
            Some(item) => exists|i: int| 0 <= i < items@.len() && items@[i] == item,
            None => items@.len() == 0,
        },
{
    items.choose(&mut rand::thread_rng()).copied()
}

/// All quotes, in their order.
pub fn quotes() -> (r: Vec<&'static str>)
    ensures
        r@.len() == QUOTE_COUNT,
        forall|i: int| 0 <= i < r@.len() ==> (#[trigger] r@[i])@ == quote_text(i as nat),
{
    let mut r: Vec<&'static str> = Vec::new();
    r.push("Talk is cheap. Show me the code. - Linus Torvalds");
    r.push("Given enough eyeballs, all bugs are shallow. - Eric S. Raymond");
    r.push("Software is like sex: it's better when it's free. - Linus Torvalds");
    r.push(
        "The Linux philosophy is 'Laugh in the face of danger'. Oops. Wrong One. 'Do it yourself'. Yes, that's it. - Linus Torvalds",
    );
    r.push(
        "Intelligence is the ability to avoid doing work, yet getting the work done. - Linus Torvalds",
    );
    r.push(
        "A computer is like air conditioning – it becomes useless when you open Windows. - Linus Torvalds",
    );
    r.push(
        "Microsoft isn't evil, they just make really crappy operating systems. - Linus Torvalds",
    );
    r.push("If you think your users are idiots, only idiots will use it. - Linus Torvalds");
    r.push(
        "I'm doing a (free) operating system (just a hobby, won't be big and professional like gnu) - Linus Torvalds",
    );
    r.push(
        "The most important thing in Open Source is that people are having fun and feeling like they're part of a community. - Mark Shuttleworth",
    );
    r
}

/// The quote to show for what was picked: the pick itself, or a notice
/// where nothing was picked.
pub fn quote_or_notice(picked: Option<&'static str>) -> (r: &'static str)
    ensures
        r@ == match picked {
            Some(quote) => quote@,
            None => no_quote(),
        },
{
    match picked {
        Some(quote) => quote,
        None => "No quote available",
    }
}

/// Picks one of the quotes at random.
pub fn get_random_quote() -> (r: &'static str)
    ensures
        is_quote(r@),
{
    let all = quotes();
    let picked = choose_one(all.as_slice());
    proof {
        let item = picked.unwrap();
        let i = choose|i: int| 0 <= i < all@.len() && all@[i] == item;
        assert(all@[i]@ == quote_text(i as nat));
    }
    quote_or_notice(picked)
}

} // verus!
