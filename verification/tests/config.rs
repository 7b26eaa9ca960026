use searpc::config::{
    device_id_from_conf, device_id_from_file, device_name, generate_random_id, hex_char, hex_id,
    resolve_device_id, DeviceId, UserConfig, DEVICE_ID_SIZE,
};
use searpc::document::FromDocument;
use searpc::lines::{char_is_space, find_char, range_is, range_text, trim_range};
use searpc::text::{decode_text, to_chars};
use searpc::{JsonValue, RepoDownloadInfo, RepoInfo};

#[test]
fn account_section_is_read() {
    let text = "[general]\nserver = wrong\n\n[account]\nserver = https://cloud.example.org\nuser=me@example.org\n  token =  abc def  \nother = x\n[more]\ntoken = nope\n";
    let config = UserConfig::parse(text);
    assert_eq!(config.server.as_deref(), Some("https://cloud.example.org"));
    assert_eq!(config.user.as_deref(), Some("me@example.org"));
    assert_eq!(config.token.as_deref(), Some("abc def"));
}

#[test]
fn account_section_edge_cases() {
    let config = UserConfig::parse("");
    assert!(config.server.is_none() && config.user.is_none() && config.token.is_none());
    let config = UserConfig::parse("server = outside");
    assert!(config.server.is_none());
    let config = UserConfig::parse("  [account]  \r\nserver = a = b\r\nserver\nuser =\n");
    assert_eq!(config.server.as_deref(), Some("a = b"));
    assert_eq!(config.user.as_deref(), Some(""));
    assert!(config.token.is_none());
    let config = UserConfig::parse("[account]\ntoken = first\ntoken = second");
    assert_eq!(config.token.as_deref(), Some("second"));
    let config = UserConfig::parse("[account]\n[account] \ntoken = t\n[ account ]\nuser = u");
    assert_eq!(config.token.as_deref(), Some("t"));
    assert!(config.user.is_none());
    let config = UserConfig::parse("[account]\n\u{3000}user\u{a0}=\u{2003}wide\u{85}\n");
    assert_eq!(config.user.as_deref(), Some("wide"));
}

#[test]
fn device_id_is_found_in_older_configuration() {
    let text = "[General]\nUSER_NAME = me\nID = 0123456789abcdef \r\nNAME = host\nID = second\n";
    assert_eq!(device_id_from_conf(text).as_deref(), Some("0123456789abcdef"));
    assert_eq!(device_id_from_conf("ID = x").as_deref(), Some("x"));
    assert_eq!(device_id_from_conf("ID = ").as_deref(), Some(""));
    assert_eq!(device_id_from_conf(" ID = x"), None);
    assert_eq!(device_id_from_conf("ID =x\nid = y\nID= z"), None);
    assert_eq!(device_id_from_conf(""), None);
    assert_eq!(device_id_from_file("  abc123\n"), "abc123");
    assert_eq!(device_id_from_file("\n"), "");
}

#[test]
fn hexadecimal_identifiers() {
    assert_eq!(hex_id(&[0x00, 0x9a, 0xbc, 0xff], 8), "009abcff");
    assert_eq!(hex_id(&[0x00, 0x9a, 0xbc, 0xff], 5), "009ab");
    assert_eq!(hex_id(&[0x12], 0), "");
    assert_eq!(hex_id(&[], 0), "");
    let digits: String = (0u8..16).map(hex_char).collect();
    assert_eq!(digits, "0123456789abcdef");
}

#[test]
fn random_identifier_has_its_size() {
    for size in [0usize, 1, 7, 40] {
        let id = generate_random_id(size);
        assert_eq!(id.len(), size);
        assert!(id.chars().all(|c| c.is_ascii_digit() || ('a'..='f').contains(&c)));
    }
    assert_ne!(generate_random_id(40), generate_random_id(40));
}

#[test]
fn device_name_keeps_the_start_of_the_host_name() {
    assert_eq!(device_name("laptop"), "terminal-laptop");
    assert_eq!(device_name(""), "terminal-");
    assert_eq!(
        device_name("a-very-long-host-name.example.org"),
        "terminal-a-very-long-host-name.exa"
    );
    assert_eq!(device_name("1234567890123456789012345"), "terminal-1234567890123456789012345");
    assert_eq!(device_name("\u{e9}t\u{e9}"), "terminal-\u{e9}t\u{e9}");
}

#[test]
fn white_space_and_ranges() {
    for c in ['\t', '\n', '\u{b}', '\u{c}', '\r', ' ', '\u{85}', '\u{a0}', '\u{1680}', '\u{2000}', '\u{200a}', '\u{2028}', '\u{2029}', '\u{202f}', '\u{205f}', '\u{3000}'] {
        assert!(char_is_space(c), "{:?}", c);
    }
    for c in ['a', '\u{8}', '\u{e}', '\u{200b}', '\u{feff}', '\u{0}'] {
        assert!(!char_is_space(c), "{:?}", c);
    }
    for n in 0..=0x3001u32 {
        if let Some(c) = char::from_u32(n) {
            assert_eq!(char_is_space(c), c.is_whitespace());
        }
    }
    let chars = to_chars("  key = value  ");
    assert_eq!(chars.len(), 15);
    assert_eq!(trim_range(&chars, 0, chars.len()), (2, 13));
    assert_eq!(find_char(&chars, 0, chars.len(), '='), 6);
    assert_eq!(find_char(&chars, 7, chars.len(), '='), chars.len());
    assert_eq!(trim_range(&chars, 0, 2), (2, 2));
    assert!(range_is(&chars, 2, 5, "key"));
    assert!(!range_is(&chars, 2, 5, "kex"));
    assert!(!range_is(&chars, 2, 6, "key"));
    assert_eq!(range_text(&chars, 8, 13), "value");
    assert_eq!(decode_text(b"caf\xc3\xa9"), Some("caf\u{e9}"));
    assert_eq!(decode_text(b"\xc3"), None);
}

#[test]
fn server_records_are_read() {
    let doc = JsonValue::parse(r#"{"id":"r","name":"Docs","encrypted":true,"size":5}"#).unwrap();
    let info = RepoInfo::from_document(&doc).unwrap();
    assert_eq!((info.id.as_str(), info.name.as_str(), info.encrypted), ("r", "Docs", true));
    let doc = JsonValue::parse(r#"{"id":"r","name":"Docs"}"#).unwrap();
    assert!(!RepoInfo::from_document(&doc).unwrap().encrypted);
    let doc = JsonValue::parse(r#"{"id":"r"}"#).unwrap();
    assert!(RepoInfo::from_document(&doc).is_err());

    let text = r#"{"token":"t","email":"e","repo_name":"n","encrypted":"","magic":"m","enc_version":2,"random_key":"k","repo_version":1,"salt":"s"}"#;
    let info = RepoDownloadInfo::from_document(&JsonValue::parse(text).unwrap()).unwrap();
    assert_eq!(info.token, "t");
    assert_eq!(info.enc_version, 2);
    assert_eq!(info.repo_version, 1);
    assert_eq!(info.permission, None);
    let text = text.replace("}", r#","permission":"rw"}"#);
    let info = RepoDownloadInfo::from_document(&JsonValue::parse(&text).unwrap()).unwrap();
    assert_eq!(info.permission.as_deref(), Some("rw"));
    let text = text.replace(r#""rw""#, "null");
    let info = RepoDownloadInfo::from_document(&JsonValue::parse(&text).unwrap()).unwrap();
    assert_eq!(info.permission, None);
    let text = text.replace(r#""permission":null"#, r#""permission":5"#);
    assert!(RepoDownloadInfo::from_document(&JsonValue::parse(&text).unwrap()).is_err());
    let text = text.replace(r#""salt":"s","#, "");
    assert!(RepoDownloadInfo::from_document(&JsonValue::parse(&text).unwrap()).is_err());
}

#[test]
fn device_identifier_is_settled_from_the_files() {
    assert!(matches!(
        resolve_device_id(Some(" stored-id\n"), Some("ID = older")),
        DeviceId::Stored(id) if id == "stored-id"
    ));
    assert!(matches!(
        resolve_device_id(None, Some("NAME = x\nID = older \n")),
        DeviceId::Migrated(id) if id == "older"
    ));
    assert!(matches!(
        resolve_device_id(None, Some("NAME = x\n")),
        DeviceId::Created(id) if id.len() == 40
    ));
    assert!(matches!(resolve_device_id(None, None), DeviceId::Created(id) if id.len() == DEVICE_ID_SIZE));
}
