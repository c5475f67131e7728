use spoty::recently_played::{recently_played_error_message, recently_played_url};
use spoty::templates::{
    check_compiled_files_exist, replace_all, replace_variables, required_template_files,
    MessageTemplate,
};
use spoty::text::{bytes_to_hex, contains_sub, i64_to_string, parse_u64, str_eq, u64_to_string};
use spoty::urlenc::url_encode;

#[test]
fn decimal_rendering_is_exact() {
    assert_eq!(u64_to_string(0), "0");
    assert_eq!(u64_to_string(12345), "12345");
    assert_eq!(u64_to_string(u64::MAX), "18446744073709551615");
    assert_eq!(i64_to_string(-5), "-5");
    assert_eq!(i64_to_string(0), "0");
    assert_eq!(i64_to_string(i64::MIN), "-9223372036854775808");
}

#[test]
fn decimal_parsing_is_exact() {
    assert_eq!(parse_u64("0"), Some(0));
    assert_eq!(parse_u64("0012"), Some(12));
    assert_eq!(parse_u64("18446744073709551615"), Some(u64::MAX));
    assert_eq!(parse_u64("18446744073709551616"), None);
    assert_eq!(parse_u64(""), None);
    assert_eq!(parse_u64("12a"), None);
    assert_eq!(parse_u64("-3"), None);
}

#[test]
fn hex_rendering_is_exact() {
    assert_eq!(bytes_to_hex(&vec![0xbe, 0xef]), "beef");
    assert_eq!(bytes_to_hex(&vec![0x00, 0x0f, 0xf0]), "000ff0");
    assert_eq!(bytes_to_hex(&Vec::new()), "");
}

#[test]
fn substring_search_and_equality() {
    assert!(contains_sub("hello world", "lo wo"));
    assert!(!contains_sub("hello world", "lowo"));
    assert!(contains_sub("abc", ""));
    assert!(!contains_sub("ab", "abc"));
    assert!(str_eq("same", "same"));
    assert!(!str_eq("same", "sam"));
}

#[test]
fn url_encoding_keeps_safe_bytes_only() {
    assert_eq!(url_encode("abcXYZ019-._~"), "abcXYZ019-._~");
    assert_eq!(url_encode("a b/c?d&e=f"), "a%20b%2Fc%3Fd%26e%3Df");
    assert_eq!(url_encode(""), "");
}

#[test]
fn replace_all_is_left_to_right_without_rescanning() {
    assert_eq!(replace_all("aaa", "aa", "b"), "ba");
    assert_eq!(replace_all("hello", "l", "L"), "heLLo");
    assert_eq!(replace_all("none here", "xyz", "-"), "none here");
    assert_eq!(replace_all("ababab", "ab", "ab"), "ababab");
}

#[test]
fn replace_variables_applies_in_order() {
    let vars = vec![
        ("who".to_string(), "world".to_string()),
        ("greeting".to_string(), "hello".to_string()),
    ];
    let rendered = replace_variables("{{ greeting }}, {{ who }}! {{ who }}!".to_string(), &vars);
    assert_eq!(rendered, "hello, world! world!");
}

#[test]
fn message_templates_carry_fixed_texts() {
    let success = MessageTemplate::success();
    assert_eq!(success.title, "Authorization Successful!");
    assert_eq!(
        success.message,
        "You have successfully authorized the Spoty application to access your Spotify account."
    );
    assert_eq!(success.hue, 210);

    let denied = MessageTemplate::authorization_error("access_denied");
    assert_eq!(denied.title, "Authorization Failed");
    assert_eq!(denied.message, "Error: access_denied");
    assert_eq!(denied.hue, 100);

    let no_code = MessageTemplate::no_code_error();
    assert_eq!(no_code.message, "No authorization code received from Spotify.");
    assert_eq!(no_code.hue, 100);

    let exchange = MessageTemplate::token_exchange_error("boom");
    assert_eq!(exchange.title, "Token Exchange Failed");
    assert_eq!(
        exchange.message,
        "Failed to exchange authorization code for access token: boom"
    );
}

#[test]
fn to_variables_lists_hue_title_message() {
    let vars = MessageTemplate::success().to_variables();
    assert_eq!(vars.len(), 3);
    assert_eq!(vars[0], ("hue".to_string(), "210".to_string()));
    assert_eq!(vars[1].0, "title");
    assert_eq!(vars[2].0, "message");
}

#[test]
fn render_fills_every_placeholder() {
    let template = "<h1 style=\"color: hsl({{ hue }}, 70%, 50%)\">{{ title }}</h1><p>{{ message }}</p>";
    let rendered = MessageTemplate::no_code_error().render(template);
    assert_eq!(
        rendered,
        "<h1 style=\"color: hsl(100, 70%, 50%)\">Authorization Failed</h1><p>No authorization code received from Spotify.</p>"
    );
}

#[test]
fn compiled_file_check_needs_every_file() {
    assert_eq!(required_template_files().len(), 4);
    assert!(check_compiled_files_exist(&vec![true, true, true, true]));
    assert!(!check_compiled_files_exist(&vec![true, true, false, true]));
    assert!(check_compiled_files_exist(&Vec::new()));
}

#[test]
fn recently_played_constants_and_errors() {
    assert_eq!(
        recently_played_url(),
        "https://api.spotify.com/v1/me/player/recently-played"
    );
    assert_eq!(
        recently_played_error_message(403, ""),
        "Forbidden - insufficient permissions or invalid client token."
    );
    assert_eq!(
        recently_played_error_message(418, "teapot"),
        "API request failed with status: 418 - teapot"
    );
}
