use backend::address::{
    normalize_optional_field, prepare_address_insert, prepare_address_update, Address,
};
use backend::connection::build_connection_str;
use backend::email::{build_reset_url, password_reset_email};

fn address_payload(member_id: &str, line_2: &str) -> Address {
    Address {
        member_id: member_id.to_string(),
        line_1: "123 Main St".to_string(),
        line_2: line_2.to_string(),
        postal_code: "12345".to_string(),
        city: "Anytown".to_string(),
        country: "United States".to_string(),
    }
}

#[test]
fn address_insert_reads_the_member_uuid() {
    let a = prepare_address_insert(address_payload("67e55044-10b1-426f-9247-bb680e5fe0c8", ""))
        .expect("Couldn't convert uuid string to uuid");
    assert_eq!(a.member_id, 0x67e5504410b1426f9247bb680e5fe0c8u128);
    assert_eq!(a.id, None);
    assert_eq!(a.line_1, "123 Main St");
    // An empty second line is stored as an absent one.
    assert_eq!(a.line_2, None);
    assert_eq!(a.postal_code, "12345");
    assert_eq!(a.city, "Anytown");
    assert_eq!(a.country, "United States");
    let a = prepare_address_insert(
        address_payload("67e55044-10b1-426f-9247-bb680e5fe0c8", "Apt 123"),
    )
    .expect("Couldn't convert uuid string to uuid");
    assert_eq!(a.line_2, Some("Apt 123".to_string()));
}

#[test]
fn address_insert_refuses_a_bad_member_uuid() {
    assert!(prepare_address_insert(address_payload("not-a-uuid", "")).is_none());
}

#[test]
fn address_update_blanks_an_empty_second_line() {
    let member_id = 0x67e5504410b1426f9247bb680e5fe0c8u128;
    let a = prepare_address_update(member_id, address_payload("ignored", ""));
    assert_eq!(a.member_id, member_id);
    assert_eq!(a.line_2, None);
    let a = prepare_address_update(member_id, address_payload("ignored", "Apt 123"));
    assert_eq!(a.line_2, Some("Apt 123".to_string()));
}

#[test]
fn optional_fields_blank_empty_text() {
    assert_eq!(normalize_optional_field(None), None);
    assert_eq!(normalize_optional_field(Some("".to_string())), None);
    assert_eq!(normalize_optional_field(Some("F1234567".to_string())), Some("F1234567".to_string()));
}

#[test]
fn reset_url_carries_token_and_email() {
    let url = build_reset_url(
        "https://club.example/password-reset",
        "67e55044-10b1-426f-9247-bb680e5fe0c8",
        "john.doe@email.com",
    );
    assert_eq!(
        url,
        "https://club.example/password-reset?token=67e55044-10b1-426f-9247-bb680e5fe0c8&email=john.doe@email.com"
    );
}

#[test]
fn reset_email_wraps_the_link_in_the_message() {
    let req = password_reset_email(
        "john.doe@email.com",
        "John",
        "67e55044-10b1-426f-9247-bb680e5fe0c8",
        "https://club.example/password-reset",
    );
    assert_eq!(req.to, "john.doe@email.com");
    assert_eq!(req.subject, "Beach Garden SXM - Mot de passe oublié");
    assert!(req.body.contains("<p>Bonjour John,</p>"));
    let url = build_reset_url(
        "https://club.example/password-reset",
        "67e55044-10b1-426f-9247-bb680e5fe0c8",
        "john.doe@email.com",
    );
    assert!(req.body.contains(&format!("<a href=\"{url}\">")));
    assert!(req.body.contains("Ce lien expirera dans une heure."));
    assert!(req.body.starts_with("\n            <html>"));
    assert!(req.body.trim_end().ends_with("</html>"));
}

#[test]
fn connection_str_lists_the_parts_in_order() {
    let s = build_connection_str("postgres", "postgres", "postgres", "5432");
    assert_eq!(
        s,
        "host=localhost port=5432 user=postgres dbname=postgres password=postgres"
    );
}
