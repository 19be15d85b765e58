use mock_data::mock_chat_response;

#[test]
fn eight_fragments_for_any_query() {
    assert_eq!(mock_chat_response("").len(), 8);
    assert_eq!(mock_chat_response("hello").len(), 8);
    assert_eq!(mock_chat_response("line one\nline two").len(), 8);
    assert_eq!(mock_chat_response("{\"key\": \"value\", \"n\": [1, 2]}").len(), 8);
    assert_eq!(mock_chat_response("\n\n").len(), 8);
}

#[test]
fn concatenation_embeds_query_between_prefix_and_suffix() {
    for q in ["", "hello", "a\nb", "\"quoted\"", "What is RAG?"] {
        let joined: String = mock_chat_response(q).concat();
        let expected = format!(
            "This is a mock response to: {}\n\nMock mode is active - no real backend is connected.",
            q
        );
        assert_eq!(joined, expected);
    }
}

#[test]
fn seventh_fragment_is_query_verbatim() {
    let q = "  raw \"query\" with \n newline and trailing spaces  ";
    let r = mock_chat_response(q);
    assert_eq!(r[6], q);
}

#[test]
fn repeated_calls_are_value_equal_and_independent() {
    let a = mock_chat_response("same query");
    let mut b = mock_chat_response("same query");
    assert_eq!(a, b);
    b[0].push('x');
    b.pop();
    assert_eq!(a.len(), 8);
    assert_eq!(a[0], "This ");
    assert_ne!(a, b);
}

#[test]
fn what_is_rag_scenario() {
    let r = mock_chat_response("What is RAG?");
    let expected = vec![
        "This ",
        "is ",
        "a ",
        "mock ",
        "response ",
        "to: ",
        "What is RAG?",
        "\n\nMock mode is active - no real backend is connected.",
    ];
    assert_eq!(r, expected);
}

#[test]
fn empty_query_scenario() {
    let joined: String = mock_chat_response("").concat();
    assert_eq!(
        joined,
        "This is a mock response to: \n\nMock mode is active - no real backend is connected."
    );
}
