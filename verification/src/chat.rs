//! The mock response streamer.
//!
//! Given a query, it produces the ordered sequence of text fragments that,
//! concatenated in emission order, spell a deterministic acknowledgement
//! embedding the query verbatim, followed by a fixed disclaimer. The fragment
//! boundaries are fixed literal splits; callers exercising an
//! incremental-rendering path may rely on the exact chunking.

use vstd::prelude::*;

verus! {

/// The text that precedes the query in the assembled response.
pub open spec fn response_prefix() -> Seq<char> {
    "This is a mock response to: "@
}

/// The disclaimer that follows the query in the assembled response.
pub open spec fn response_suffix() -> Seq<char> {
    "\n\nMock mode is active - no real backend is connected."@
}

/// The full response text for a query: prefix, query verbatim, suffix,
/// with no characters added, dropped, or reordered.
pub open spec fn response_text(query: Seq<char>) -> Seq<char> {
    response_prefix() + query + response_suffix()
}

/// The exact fragment sequence emitted for a query: six fixed words of the
/// acknowledgement, the query verbatim at index 6, and the disclaimer last.
pub open spec fn chat_fragments(query: Seq<char>) -> Seq<Seq<char>> {
    seq![
        "This "@,
        "is "@,
        "a "@,
        "mock "@,
        "response "@,
        "to: "@,
        query,
        "\n\nMock mode is active - no real backend is connected."@,
    ]
}

/// The character sequences held by a vector of fragments, in order.
pub open spec fn fragment_views(frags: Seq<String>) -> Seq<Seq<char>> {
    frags.map_values(|f: String| f@)
}

/// Produces the mock response to `question` as an ordered fragment list.
///
/// The operation is total: any query is accepted, including the empty string,
/// and is embedded unmodified. Each call builds a fresh vector; nothing is
/// shared or reused across calls.
pub fn mock_chat_response(question: &str) -> (r: Vec<String>)
    ensures
        fragment_views(r@) == chat_fragments(question@),
        r@.len() == 8,
        r@[6]@ == question@,
{
    let mut r: Vec<String> = Vec::new();
    r.push("This ".to_string());
    r.push("is ".to_string());
    r.push("a ".to_string());
    r.push("mock ".to_string());
    r.push("response ".to_string());
    r.push("to: ".to_string());
    r.push(question.to_string());
    r.push("\n\nMock mode is active - no real backend is connected.".to_string());
    proof {
        assert(fragment_views(r@) =~= chat_fragments(question@));
    }
    r
}

/// Concatenating the fragments of a response, in emission order, yields
/// exactly the prefix, the query verbatim, and the suffix — for every query.
pub proof fn lemma_fragments_flatten_to_text(query: Seq<char>)
    ensures
        chat_fragments(query).flatten() == response_text(query),
{
    reveal_strlit("This ");
    reveal_strlit("is ");
    reveal_strlit("a ");
    reveal_strlit("mock ");
    reveal_strlit("response ");
    reveal_strlit("to: ");
    reveal_strlit("This is a mock response to: ");
    reveal_with_fuel(Seq::<_>::flatten, 9);
    assert(chat_fragments(query).flatten() =~= response_text(query));
}

/// Responses are deterministic: two fragment sequences produced for the same
/// query — by separate calls, so by independent instances — are value-equal.
pub proof fn lemma_response_deterministic(query: Seq<char>, r1: Seq<Seq<char>>, r2: Seq<Seq<char>>)
    requires
        r1 == chat_fragments(query),
        r2 == chat_fragments(query),
    ensures
        r1 == r2,
{
}

} // verus!
