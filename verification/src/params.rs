//! Start-up parameters of an application: the arguments of a process, or the
//! tokens of a page's query string.

use vstd::prelude::*;
use vstd::string::*;

verus! {

/// Position of the first `separator` in `text`, or the length of `text` if
/// it holds none.
pub open spec fn first_separator(text: Seq<char>, separator: char) -> int
    decreases text.len(),
{
    if text.len() == 0 || text[0] == separator {
        0
    } else {
        1 + first_separator(text.drop_first(), separator)
    }
}

/// The pieces of `text` between its separators, in order. There is always
/// one piece more than there are separators, so a text without any yields
/// itself, and the empty text yields one empty piece.
pub open spec fn split(text: Seq<char>, separator: char) -> Seq<Seq<char>>
    decreases text.len(),
{
    let cut = first_separator(text, separator);
    if 0 <= cut < text.len() {
        seq![text.take(cut)] + split(text.skip(cut + 1), separator)
    } else {
        seq![text]
    }
}

/// The tokens of a query string as the browser gives it: whatever follows
/// its first character (the question mark), cut at every `&`.
pub open spec fn query_tokens(search: Seq<char>) -> Seq<Seq<char>> {
    if search.len() > 0 {
        split(search.skip(1), '&')
    } else {
        split(search, '&')
    }
}

/// The first separator is found where the text says it is: at `cut`, when no
/// separator stands before `cut` and one stands there, or the text ends.
pub proof fn lemma_first_separator(text: Seq<char>, separator: char, cut: int)
    requires
        0 <= cut <= text.len(),
        forall|k: int| 0 <= k < cut ==> text[k] != separator,
        cut < text.len() ==> text[cut] == separator,
    ensures
        first_separator(text, separator) == cut,
    decreases cut,
{
    if cut > 0 {
        let rest = text.drop_first();
        assert forall|k: int| 0 <= k < cut - 1 implies rest[k] != separator by {
            assert(rest[k] == text[k + 1]);
        }
        lemma_first_separator(rest, separator, cut - 1);
    }
}

/// The pieces put together again, with one `separator` between neighbours.
pub open spec fn join(pieces: Seq<Seq<char>>, separator: char) -> Seq<char>
    decreases pieces.len(),
{
    if pieces.len() == 0 {
        Seq::empty()
    } else if pieces.len() == 1 {
        pieces[0]
    } else {
        pieces[0] + seq![separator] + join(pieces.drop_first(), separator)
    }
}

/// Where the first separator is said to be, there is one, and none before.
pub proof fn lemma_first_separator_is_first(text: Seq<char>, separator: char)
    ensures
        0 <= first_separator(text, separator) <= text.len(),
        first_separator(text, separator) < text.len() ==> text[first_separator(text, separator)]
            == separator,
        forall|k: int| 0 <= k < first_separator(text, separator) ==> text[k] != separator,
    decreases text.len(),
{
    if text.len() > 0 && text[0] != separator {
        let rest = text.drop_first();
        lemma_first_separator_is_first(rest, separator);
        assert forall|k: int| 0 <= k < first_separator(text, separator) implies text[k]
            != separator by {
            if k > 0 {
                assert(text[k] == rest[k - 1]);
            }
        }
    }
}

/// Cutting loses nothing and invents nothing: there is at least one piece,
/// no piece holds a separator, and the pieces joined by the separator are
/// the text again.
pub proof fn lemma_split_is_exact(text: Seq<char>, separator: char)
    ensures
        split(text, separator).len() >= 1,
        forall|i: int, k: int|
            0 <= i < split(text, separator).len() && 0 <= k < split(text, separator)[i].len()
                ==> split(text, separator)[i][k] != separator,
        join(split(text, separator), separator) == text,
    decreases text.len(),
{
    lemma_first_separator_is_first(text, separator);
    let cut = first_separator(text, separator);
    let pieces = split(text, separator);
    if cut < text.len() {
        let rest = text.skip(cut + 1);
        let tail = split(rest, separator);
        lemma_split_is_exact(rest, separator);
        assert(pieces =~= seq![text.take(cut)] + tail);
        assert(pieces.drop_first() =~= tail);
        assert forall|i: int, k: int| 0 <= i < pieces.len() && 0 <= k < pieces[i].len() implies
            pieces[i][k] != separator by {
            if i == 0 {
                assert(pieces[0][k] == text[k]);
            } else {
                assert(pieces[i] == tail[i - 1]);
            }
        }
        assert(text =~= text.take(cut) + seq![separator] + rest);
    } else {
        assert(pieces =~= seq![text]);
    }
}

/// Cuts a query string into its tokens.
pub fn parse_query(search: &str) -> (params: Vec<String>)
    ensures
        params.deep_view() == query_tokens(search@),
{
    let n = search.unicode_len();
    let mut params: Vec<String> = Vec::new();
    let mut start: usize = if n > 0 {
        1
    } else {
        0
    };
    let mut i: usize = start;
    proof {
        let rest = search@.subrange(start as int, n as int);
        if n > 0 {
            assert(rest =~= search@.skip(1));
        } else {
            assert(rest =~= search@);
        }
        assert(params.deep_view() + split(rest, '&') =~= split(rest, '&'));
    }
    while i < n
        invariant
            n == search@.len(),
            start <= i <= n,
            forall|k: int| start <= k < i ==> search@[k] != '&',
            params.deep_view() + split(search@.subrange(start as int, n as int), '&')
                == query_tokens(search@),
        decreases n - i,
    {
        if search.get_char(i) == '&' {
            let ghost done = params.deep_view();
            let ghost rest = search@.subrange(start as int, n as int);
            let token = String::from_str(search.substring_char(start, i));
            params.push(token);
            proof {
                let cut = i - start;
                assert forall|k: int| 0 <= k < cut implies rest[k] != '&' by {
                    assert(rest[k] == search@[start + k]);
                }
                lemma_first_separator(rest, '&', cut);
                assert(rest.take(cut) =~= search@.subrange(start as int, i as int));
                assert(rest.skip(cut + 1) =~= search@.subrange(i + 1, n as int));
                assert(params.deep_view() =~= done.push(rest.take(cut)));
                assert(done + split(rest, '&') =~= done.push(rest.take(cut)) + split(
                    rest.skip(cut + 1),
                    '&',
                ));
            }
            start = i + 1;
        }
        i += 1;
    }
    let ghost done = params.deep_view();
    let ghost rest = search@.subrange(start as int, n as int);
    let token = String::from_str(search.substring_char(start, n));
    params.push(token);
    proof {
        assert forall|k: int| 0 <= k < rest.len() implies rest[k] != '&' by {
            assert(rest[k] == search@[start + k]);
        }
        lemma_first_separator(rest, '&', rest.len() as int);
        assert(params.deep_view() =~= done.push(rest));
        assert(done + split(rest, '&') =~= done.push(rest));
    }
    params
}

/// The arguments of a process without its first one, the program's own name.
pub fn strip_program_name(args: Vec<String>) -> (params: Vec<String>)
    requires
        args@.len() > 0,
    ensures
        params@ == args@.drop_first(),
{
    let mut params = args;
    params.remove(0);
    assert(params@ =~= args@.drop_first());
    params
}

} // verus!
