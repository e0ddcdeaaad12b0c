//! The derived text: flags, identifiers, host names, request bodies and
//! the CSR escaping.

use mesh_core::models::{IpResponse, RegistryReturn};
use mesh_core::provision::{make_identifier, prepare_certificate_request};
use mesh_core::store::server_row;
use mesh_core::strings::{
    cert_hostname, cert_request_body, dns_name, dns_record_body, escape_newlines, flag_of,
    health_url, strip_carriage_returns, timezone_city, to_lowercase,
};

#[test]
fn flag_lowercases_and_dashes() {
    assert_eq!(flag_of(&"NZ".to_string()), "nz");
    assert_eq!(flag_of(&"New Zealand".to_string()), "new-zealand");
    assert_eq!(flag_of(&"United Arab Emirates".to_string()), "united-arab-emirates");
    assert_eq!(flag_of(&"".to_string()), "");
}

#[test]
fn lowercase_changes_its_input() {
    assert_eq!(to_lowercase(&"AbC".to_string()), "abc");
    assert_eq!(to_lowercase(&"already lower".to_string()), "already lower");
}

#[test]
fn timezone_city_takes_the_second_segment() {
    assert_eq!(timezone_city(&"Pacific/Auckland".to_string()), "Auckland");
    assert_eq!(
        timezone_city(&"America/Argentina/Buenos_Aires".to_string()),
        "Argentina"
    );
    assert_eq!(timezone_city(&"Etc/".to_string()), "");
}

#[test]
fn host_names_and_urls() {
    assert_eq!(dns_name(&"1.2.3.4".to_string()), "1.2.3.4.dns");
    assert_eq!(cert_hostname(&"nz-1".to_string()), "nz-1.reseda.app");
    assert_eq!(
        health_url(&"nz-1".to_string()),
        "https://nz-1.dns.reseda.app/health"
    );
}

#[test]
fn identifier_carries_country_and_fresh_tail() {
    let a = make_identifier(&"NZ".to_string());
    assert!(a.starts_with("nz-"));
    assert_eq!(a.chars().count(), 2 + 1 + 36);
    let b = make_identifier(&"NZ".to_string());
    assert_ne!(a, b);
    // only the flag turns spaces into dashes; the identifier keeps them
    let c = make_identifier(&"New Zealand".to_string());
    assert!(c.starts_with("new zealand-"));
}

#[test]
fn newline_escaping() {
    assert_eq!(escape_newlines(&"a\nb".to_string()), "a\\nb");
    assert_eq!(escape_newlines(&"\n\n".to_string()), "\\n\\n");
    assert_eq!(escape_newlines(&"plain".to_string()), "plain");
    assert_eq!(escape_newlines(&"".to_string()), "");
    assert_eq!(strip_carriage_returns(&"a\r\nb\r".to_string()), "a\nb");
}

#[test]
fn dns_record_body_is_the_provider_schema() {
    let body = dns_record_body(&"nz-1".to_string(), &"1.2.3.4".to_string(), true);
    let expected = format!(
        "
        {{
            \"type\": \"A\",
            \"name\": \"{}\",
            \"content\": \"{}\",
            \"ttl\": 3600,
            \"priority\": 10,
            \"proxied\": {}
        }}",
        "nz-1", "1.2.3.4", true
    );
    assert_eq!(body, expected);
    let body2 = dns_record_body(&"nz-1".to_string(), &"1.2.3.4.dns".to_string(), false);
    assert!(body2.contains("\"proxied\": false"));
    assert!(body2.contains("\"content\": \"1.2.3.4.dns\""));
}

#[test]
fn cert_request_body_is_the_authority_schema() {
    let body = cert_request_body(&"nz-1".to_string(), &"CSR".to_string());
    let expected = format!(
        "
        {{
            \"hostnames\": [
                \"{}.reseda.app\"
            ],
            \"requested_validity\": 5475,
            \"request_type\": \"origin-rsa\",
            \"csr\": \"{}\"
        }}",
        "nz-1", "CSR"
    );
    assert_eq!(body, expected);
}

#[test]
fn certificate_request_preparation() {
    let prepared = prepare_certificate_request(&"nz-1".to_string());
    let (body, key) = prepared.expect("local generation succeeds");
    assert!(body.contains("\"hostnames\": [\n                \"nz-1.reseda.app\""));
    assert!(body.contains("\"requested_validity\": 5475"));
    assert!(body.contains("\"request_type\": \"origin-rsa\""));
    // the CSR is embedded with newlines escaped, so the body stays one line
    // per schema field
    assert!(body.contains("\"csr\": \"-----BEGIN CERTIFICATE REQUEST-----\\n"));
    assert!(!key.is_empty());
    assert!(key.contains("PRIVATE KEY"));
}

#[test]
fn server_row_fields() {
    let information = RegistryReturn {
        key: String::new(),
        cert: String::new(),
        ip: "9.8.7.6".to_string(),
        record_id: String::new(),
        record_dns_id: String::new(),
        cert_id: String::new(),
        res: IpResponse {
            country: "New Zealand".to_string(),
            country_code: "NZ".to_string(),
            region: "Auckland".to_string(),
            city: "Auckland".to_string(),
            timezone: "Pacific/Auckland".to_string(),
        },
        id: "new-zealand-1".to_string(),
    };
    let row = server_row(&information);
    assert_eq!(row.id, "new-zealand-1");
    assert_eq!(row.location, "Pacific/Auckland");
    assert_eq!(row.country, "Auckland");
    assert_eq!(row.hostname, "9.8.7.6");
    assert_eq!(row.flag, "new-zealand");
}
