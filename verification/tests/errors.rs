use buildkit_frontend::error::{ErrorCode, ErrorWithCauses, FrontendError};

fn chain_of(messages: &[&str]) -> FrontendError {
    let mut iter = messages.iter().rev();
    let mut error = FrontendError::new(iter.next().expect("nonempty chain").to_string());
    for message in iter {
        error = error.context(message.to_string());
    }
    error
}

#[test]
fn single_line_flattens_cause_chain() {
    let error = chain_of(&["A", "B", "C"]);
    assert_eq!(error.messages, vec!["A".to_string(), "B".to_string(), "C".to_string()]);

    let rendered = ErrorWithCauses::single_line(error).render();
    assert_eq!(rendered, "A: B: C");
}

#[test]
fn multi_line_keeps_each_cause_on_its_own_line() {
    let error = chain_of(&["A", "B", "C"]);
    let rendered = ErrorWithCauses::multi_line(error).render();
    assert_eq!(rendered, "A\nB\nC");

    let lines: Vec<&str> = rendered.lines().collect();
    assert_eq!(lines, vec!["A", "B", "C"]);
}

#[test]
fn single_message_renders_unchanged() {
    let error = FrontendError::new("only".to_string());
    assert_eq!(ErrorWithCauses::single_line(error.clone()).render(), "only");
    assert_eq!(ErrorWithCauses::multi_line(error).render(), "only");
}

#[test]
fn into_inner_gives_the_chain_back() {
    let error = chain_of(&["outer", "inner"]);
    let wrapped = ErrorWithCauses::multi_line(error);
    let unwrapped = wrapped.into_inner();
    assert_eq!(unwrapped.messages, vec!["outer".to_string(), "inner".to_string()]);
}

#[test]
fn error_codes_map_to_standard_numbers() {
    assert_eq!(ErrorCode::Cancelled.number(), 1);
    assert_eq!(ErrorCode::Unknown.number(), 2);
    assert_eq!(ErrorCode::InvalidArgument.number(), 3);
    assert_eq!(ErrorCode::NotFound.number(), 5);
    assert_eq!(ErrorCode::Internal.number(), 13);
    assert_eq!(ErrorCode::Unavailable.number(), 14);
    assert_eq!(ErrorCode::Unauthenticated.number(), 16);
}

#[test]
fn exit_status_is_zero_only_on_delivered_success() {
    assert_eq!(buildkit_frontend::exit_status(true, true), 0);
    assert_ne!(buildkit_frontend::exit_status(true, false), 0);
    assert_ne!(buildkit_frontend::exit_status(false, true), 0);
    assert_ne!(buildkit_frontend::exit_status(false, false), 0);
}
