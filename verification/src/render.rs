//! The text of a vector: its elements' texts between parentheses, separated by
//! a semicolon and a space.

use crate::vector::Vector;
use core::fmt::Write;
use vstd::prelude::*;
use vstd::string::StringExecFns;

verus! {

/// Says that an element could not be turned into text by its own `Display`.
#[derive(Clone, Copy, Debug, PartialEq, Eq, Structural)]
pub struct FormatError;

/// The error of `core::fmt`, carried from an element's `Display` to where it is
/// turned into a `FormatError`. Nothing is known of what is inside.
#[verifier::external_type_specification]
#[verifier::external_body]
pub struct ExFmtError(core::fmt::Error);

/// The texts of `texts` one after the other, with `"; "` between each two.
pub open spec fn joined(texts: Seq<Seq<char>>) -> Seq<char>
    decreases texts.len(),
{
    if texts.len() == 0 {
        Seq::empty()
    } else if texts.len() == 1 {
        texts[0]
    } else {
        joined(texts.drop_last()) + seq![';', ' '] + texts.last()
    }
}

/// The text of a vector whose elements have the texts `texts`, in that order:
/// `(`, the joined texts, `)`.
pub open spec fn rendering(texts: Seq<Seq<char>>) -> Seq<char> {
    seq!['('] + joined(texts) + seq![')']
}

/// The characters of each string of `texts`.
pub open spec fn characters(texts: Seq<String>) -> Seq<Seq<char>> {
    Seq::new(texts.len(), |i: int| texts[i]@)
}

/// Says that `show` can give `texts[i]` for `elements[i]`, at each position of
/// `texts`.
pub open spec fn shown<T, E, F: Fn(&T) -> Result<String, E>>(
    show: F,
    elements: Seq<T>,
    texts: Seq<String>,
) -> bool {
    &&& texts.len() <= elements.len()
    &&& forall|i: int|
        0 <= i < texts.len() ==> call_ensures(
            show,
            (&elements[i],),
            Ok::<String, E>(#[trigger] texts[i]),
        )
}

/// A vector without elements has the text `()`.
pub proof fn lemma_rendering_of_none()
    ensures
        rendering(Seq::empty()) == seq!['(', ')'],
{
    assert(rendering(Seq::empty()) =~= seq!['(', ')']);
}

/// A vector of one element has that element's text between the parentheses,
/// with no separator.
pub proof fn lemma_rendering_of_one(text: Seq<char>)
    ensures
        rendering(seq![text]) == seq!['('] + text + seq![')'],
{
}

/// One more element at the end adds `"; "` and that element's text to what is
/// between the parentheses.
pub proof fn lemma_joined_with_one_more(texts: Seq<Seq<char>>, text: Seq<char>)
    requires
        texts.len() > 0,
    ensures
        joined(texts.push(text)) == joined(texts) + seq![';', ' '] + text,
{
    assert(texts.push(text).drop_last() =~= texts);
}

/// Turns one element into text by its own `Display`, through `write!` into an
/// empty `String`. The text, or the failure, is what the element's `Display`
/// made of it: nothing is claimed of either.
#[verifier::external_body]
fn element_text<T: core::fmt::Display>(element: &T) -> (text: Result<String, core::fmt::Error>) {
    let mut text = String::new();
    match write!(text, "{}", element) {
        Ok(()) => Ok(text),
        Err(error) => Err(error),
    }
}

impl<T, const N: usize> Vector<T, N> {
    /// The text of the vector, where `show` gives the text of an element.
    ///
    /// `show` is asked for each element once, from position 0 upwards. If it
    /// fails for an element, its error is handed on as it is, and no later
    /// element is asked for.
    pub fn fmt_with<E, F: Fn(&T) -> Result<String, E>>(&self, show: F) -> (text: Result<String, E>)
        requires
            forall|i: int| 0 <= i < N ==> call_requires(show, (&#[trigger] self@[i],)),
        ensures
            N == 0 ==> (text matches Ok(whole) && whole@ == seq!['(', ')']),
            match text {
                Ok(whole) => exists|texts: Seq<String>|
                    {
                        &&& texts.len() == N
                        &&& shown(show, self@, texts)
                        &&& whole@ == rendering(characters(texts))
                    },
                Err(error) => exists|texts: Seq<String>|
                    {
                        &&& texts.len() < N
                        &&& shown(show, self@, texts)
                        &&& call_ensures(
                            show,
                            (&self@[texts.len() as int],),
                            Err::<String, E>(error),
                        )
                    },
            },
    {
        let mut whole = String::from_str("(");
        let ghost mut texts: Seq<String> = Seq::empty();
        proof {
            reveal_strlit("(");
            self.lemma_len();
        }
        for index in 0..N
            invariant
                self@.len() == N,
                forall|i: int| 0 <= i < N ==> call_requires(show, (&#[trigger] self@[i],)),
                texts.len() == index,
                shown(show, self@, texts),
                whole@ == seq!['('] + joined(characters(texts)),
        {
            match show(&self[index]) {
                Ok(part) => {
                    if index > 0 {
                        whole.append("; ");
                    }
                    whole.append(part.as_str());
                    proof {
                        reveal_strlit("; ");
                        let before = characters(texts);
                        texts = texts.push(part);
                        assert(characters(texts) =~= before.push(part@));
                        if index > 0 {
                            lemma_joined_with_one_more(before, part@);
                        }
                        assert(whole@ =~= seq!['('] + joined(characters(texts)));
                    }
                },
                Err(error) => {
                    return Err(error);
                },
            }
        }
        whole.append(")");
        proof {
            reveal_strlit(")");
            assert(whole@ =~= rendering(characters(texts)));
        }
        Ok(whole)
    }

    /// The text of the vector, each element turned into text by its own
    /// `Display`, from position 0 upwards.
    ///
    /// If an element's `Display` fails, so does this, and no later element is
    /// asked for. What an element's text is rests with its `Display`: all that
    /// is said of the whole is how it is put together.
    pub fn fmt(&self) -> (text: Result<String, FormatError>) where T: core::fmt::Display
        ensures
            N == 0 ==> (text matches Ok(whole) && whole@ == seq!['(', ')']),
            text matches Ok(whole) ==> exists|texts: Seq<Seq<char>>|
                texts.len() == N && whole@ == rendering(texts),
    {
        match self.fmt_with(element_text::<T>) {
            Ok(whole) => Ok(whole),
            Err(_) => Err(FormatError),
        }
    }
}

} // verus!
