use name_server::names::{name_at, pick_index, pick_name, pick_name_with, NAME_COUNT};
use name_server::response::{into_response, respond, Error, STATUS_INTERNAL_ERROR, STATUS_OK};

const POOL: [&str; 4] = ["Aiden", "Kyle", "Andrew", "Ethan"];

#[test]
fn pool_in_order() {
    assert_eq!(NAME_COUNT, 4);
    for i in 0..NAME_COUNT {
        assert_eq!(name_at(i), POOL[i]);
    }
}

#[test]
fn pick_index_reduces_modulo_pool() {
    assert_eq!(pick_index(0), 0);
    assert_eq!(pick_index(5), 1);
    assert_eq!(pick_index(7), 3);
    assert_eq!(pick_index(usize::MAX), 3);
}

#[test]
fn pick_name_with_raw_values() {
    assert_eq!(pick_name_with(0), "Aiden");
    assert_eq!(pick_name_with(1), "Kyle");
    assert_eq!(pick_name_with(2), "Andrew");
    assert_eq!(pick_name_with(3), "Ethan");
    assert_eq!(pick_name_with(4), "Aiden");
    assert_eq!(pick_name_with(usize::MAX), "Ethan");
}

#[test]
fn pick_name_stays_in_pool() {
    for _ in 0..10_000 {
        let n = pick_name();
        assert!(POOL.contains(&n));
    }
}

#[test]
fn pick_name_roughly_uniform() {
    let mut counts = [0usize; 4];
    for _ in 0..40_000 {
        let n = pick_name();
        let i = POOL.iter().position(|p| *p == n).unwrap();
        counts[i] += 1;
    }
    for c in counts {
        assert!(c > 9_000 && c < 11_000, "count {}", c);
    }
}

#[test]
fn selection_cycles_through_pool() {
    for raw in [0usize, 13, 1_000_001, usize::MAX - 1] {
        assert_eq!(pick_index(raw + 1), (pick_index(raw) + 1) % NAME_COUNT);
    }
}

#[test]
fn rendered_body_becomes_ok_page() {
    let r = into_response(Ok("<p>Hello, Kyle!</p>".to_string()), "text/html; charset=utf-8");
    let page = r.unwrap();
    assert_eq!(page.status, 200);
    assert_eq!(page.content_type.as_deref(), Some("text/html; charset=utf-8"));
    assert_eq!(page.body, "<p>Hello, Kyle!</p>");
    let client = respond(Ok(page.clone()));
    assert_eq!(client.status, STATUS_OK);
    assert_eq!(client.body, page.body);
    assert_eq!(client.content_type, page.content_type);
}

#[test]
fn render_failure_becomes_template_error() {
    let r = into_response(Err("unknown variable".to_string()), "text/html");
    match r {
        Err(Error::TemplateError(m)) => assert_eq!(m, "unknown variable"),
        _ => panic!("expected a template error"),
    }
}

#[test]
fn failure_hides_message_from_client() {
    let secret = "internal detail: x";
    let page = respond(into_response(Err(secret.to_string()), "text/html"));
    assert_eq!(page.status, STATUS_INTERNAL_ERROR);
    assert_eq!(page.status, 500);
    assert!(page.body.is_empty());
    assert!(page.content_type.is_none());
    assert!(!page.body.contains(secret));
}

#[test]
fn both_errors_give_bare_500() {
    for e in [Error::Static("a".to_string()), Error::TemplateError("b".to_string())] {
        let page = e.into_response();
        assert_eq!(page.status, 500);
        assert!(page.body.is_empty());
        assert!(page.content_type.is_none());
    }
}

#[test]
fn describe_quotes_message() {
    assert_eq!(Error::Static("boom".to_string()).describe(), "Static Error: \"boom\"");
    assert_eq!(
        Error::TemplateError("a\"b\n".to_string()).describe(),
        "Template Error: \"a\\\"b\\n\""
    );
}

#[test]
fn rendering_mapping_is_repeatable() {
    let a = respond(into_response(Ok("<b>Ethan</b>".to_string()), "text/html"));
    let b = respond(into_response(Ok("<b>Ethan</b>".to_string()), "text/html"));
    assert_eq!(a.body.as_bytes(), b.body.as_bytes());
    assert_eq!(a.status, b.status);
    assert_eq!(a.content_type, b.content_type);
}
