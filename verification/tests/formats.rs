//! Poll answers, encodings, cookies and addresses.

use base64::Engine;
use qlogin::callback::parse_poll_callback;
use qlogin::codec::{data_url, data_url_of, decode_legacy_text, random_hex};
use qlogin::cookies::{
    allowed_qq_cookie_domain, cookie_header, header_cookies, is_required_cookie, jar_cookies,
    Cookies,
};
use qlogin::link::{
    check_success_url, query_url, query_value, redirect_target, validate_login_hop,
    validate_success_url, LoginUrl,
};
use qlogin::status::QrSessionId;
use reqwest::cookie::Jar;

fn url(text: &str) -> url::Url {
    url::Url::parse(text).unwrap()
}

fn is_hex(text: &str) -> bool {
    text.bytes().all(|b| b.is_ascii_digit() || (b'a'..=b'f').contains(&b))
}

#[test]
fn poll_answers_are_read() {
    assert_eq!(
        parse_poll_callback("ptuiCB('66','0','','0','二维码未失效。', '')"),
        Err("QQ 登录返回了无法识别的状态".to_string())
    );
    assert_eq!(
        parse_poll_callback("ptuiCB('66','0','','0','二维码未失效。','');"),
        Ok(("66".to_string(), "".to_string()))
    );
    assert_eq!(
        parse_poll_callback(
            "\r\n ptuiCB('0','0','https://ptlogin2.qzone.qq.com/check_sig?uin=1','0','登录成功！','x') \n"
        ),
        Ok((
            "0".to_string(),
            "https://ptlogin2.qzone.qq.com/check_sig?uin=1".to_string()
        ))
    );
}

#[test]
fn poll_answers_match_their_pattern() {
    let pattern = regex::Regex::new(
        r"^ptuiCB\('([^']*)','([^']*)','([^']*)','([^']*)','([^']*)','([^']*)'\);?\s*$",
    )
    .unwrap();
    let texts = [
        "",
        "ptuiCB",
        "ptuiCB('','','','','','')",
        "ptuiCB('','','','','','');",
        "ptuiCB('','','','','','');;",
        "ptuiCB('','','','','','') ;",
        "ptuiCB('','','','','',''); ",
        "ptuiCB('','','','','','')\u{3000}\n",
        "ptuiCB('1','2','3','4','5','6')",
        "ptuiCB('1','2','3','4','5')",
        "ptuiCB('1','2','3','4','5','6','7')",
        "ptuiCB('1', '2','3','4','5','6')",
        "ptuiCB('1','2','3','4','5','6'",
        "ptuiCB('1','2','3','4','5','6)",
        "ptuiCB(1,2,3,4,5,6)",
        "PTUICB('1','2','3','4','5','6')",
        " ptuiCB('a,b','\"','(c)','\n','登录','; ');",
        "xptuiCB('1','2','3','4','5','6')",
        "ptuiCB('1','2','3','4','5','6')x",
        "ptuiCB('1''2','2','3','4','5','6')",
        "ptuiCB('1','2','3','4','5','6');ptuiCB('1','2','3','4','5','6');",
        "ptuiCB('67','0',',','0',';',');');",
    ];
    for text in texts {
        let expected = pattern
            .captures(text.trim())
            .map(|found| (found[1].to_owned(), found[3].to_owned()))
            .ok_or("QQ 登录返回了无法识别的状态".to_string());
        assert_eq!(parse_poll_callback(text), expected, "{text:?}");
    }
}

#[test]
fn poll_answers_are_read_back() {
    for fields in [["0", "1", "2", "3", "4", "5"], ["65", "", "a;b)", "(", ",", "登录"]] {
        for end in ["", ";"] {
            let text = format!(
                "ptuiCB('{}','{}','{}','{}','{}','{}'){}",
                fields[0], fields[1], fields[2], fields[3], fields[4], fields[5], end
            );
            assert_eq!(
                parse_poll_callback(&text),
                Ok((fields[0].to_string(), fields[2].to_string()))
            );
        }
    }
}

#[test]
fn images_become_data_addresses() {
    assert_eq!(data_url("image/png", b""), "data:image/png;base64,");
    assert_eq!(data_url("image/png", b"a"), "data:image/png;base64,YQ==");
    assert_eq!(data_url("image/jpeg", b"ab"), "data:image/jpeg;base64,YWI=");
    assert_eq!(data_url("image/gif", b"abc"), "data:image/gif;base64,YWJj");
    let bytes: Vec<u8> = (0..=255).collect();
    assert_eq!(
        data_url("image/webp", &bytes),
        format!(
            "data:image/webp;base64,{}",
            base64::engine::general_purpose::STANDARD.encode(&bytes)
        )
    );
    assert_eq!(data_url("image/png", &[0xfb, 0xff]), "data:image/png;base64,+/8=");
    assert_eq!(data_url_of("a/b", "cd"), "data:a/b;base64,cd");
}

#[test]
fn answers_are_utf8_or_gb18030() {
    assert_eq!(decode_legacy_text(b""), "");
    assert_eq!(decode_legacy_text("昵称 nick".as_bytes()), "昵称 nick");
    assert_eq!(decode_legacy_text(&[0xea, 0xc7, 0xb3, 0xc6]), "昵称");
    assert_eq!(decode_legacy_text(&[b'a', 0xc4, 0xe3, b'b']), "a你b");
    assert_eq!(decode_legacy_text(&[0xff]), "\u{fffd}");
    assert_eq!(decode_legacy_text(&[0x81, 0x30, 0x81, 0x30]), "\u{80}");
}

#[test]
fn random_names_are_hexadecimal() {
    for len in [0usize, 1, 31, 32, 33, 42, 64, 100] {
        let text = random_hex(len);
        assert_eq!(text.len(), len);
        assert!(is_hex(&text));
    }
    assert_ne!(random_hex(32), random_hex(32));
}

#[test]
fn session_names_are_fresh() {
    let first = QrSessionId::generate();
    let second = QrSessionId::generate();
    assert_ne!(first, second);
    assert_eq!(first.0.len(), 32);
    assert!(is_hex(&first.0));
    assert_eq!(first.0.as_bytes()[12], b'4');
    assert!(b"89ab".contains(&first.0.as_bytes()[16]));
    assert_eq!(first.clone(), first);
    assert_eq!(QrSessionId::from("abc").0, "abc");
}

#[test]
fn headers_send_cookies_in_order() {
    let mut cookies = Cookies::new();
    assert_eq!(cookie_header(&cookies), "");
    cookies.insert("uin".to_string(), "o1".to_string());
    assert_eq!(cookie_header(&cookies), "uin=o1");
    cookies.insert("p_skey".to_string(), "a=b".to_string());
    cookies.insert("uin".to_string(), "o2".to_string());
    assert_eq!(cookie_header(&cookies), "uin=o2; p_skey=a=b");
    assert_eq!(cookies.get("uin").map(String::as_str), Some("o2"));
    assert_eq!(cookies.get("skey"), None);
}

#[test]
fn headers_name_each_cookie_once() {
    let cookies = header_cookies("a=1; b=2; a=3; c=4; b=5");
    let line = cookie_header(&cookies);
    assert_eq!(line, "a=3; b=5; c=4");
    let names: Vec<&str> = line.split("; ").filter_map(|item| item.split('=').next()).collect();
    for name in ["a", "b", "c"] {
        assert_eq!(names.iter().filter(|found| **found == name).count(), 1);
    }
}

#[test]
fn headers_are_taken_apart() {
    let cookies = header_cookies(" a = 1 ;b=2=3;c;;=d; a=\t4 ; e=");
    assert_eq!(cookies.get("a ").map(String::as_str), Some(" 1"));
    assert_eq!(cookies.get("a").map(String::as_str), Some("\t4"));
    assert_eq!(cookies.get("b").map(String::as_str), Some("2=3"));
    assert_eq!(cookies.get("c"), None);
    assert_eq!(cookies.get("").map(String::as_str), Some("d"));
    assert_eq!(cookies.get("e").map(String::as_str), Some(""));
    assert!(header_cookies("").get("").is_none());
}

#[test]
fn headers_read_back_what_they_send() {
    let mut cookies = Cookies::new();
    cookies.insert("uin".to_string(), "o10001".to_string());
    cookies.insert("p_skey".to_string(), "x y=z".to_string());
    cookies.insert("empty".to_string(), "".to_string());
    let line = cookie_header(&cookies);
    let read = header_cookies(&line);
    for name in ["uin", "p_skey", "empty"] {
        assert_eq!(read.get(name), cookies.get(name));
    }
    assert_eq!(cookie_header(&read), line);
}

#[test]
fn jars_send_cookies_to_their_hosts() {
    let jar = Jar::default();
    assert_eq!(cookie_header(&jar_cookies(&jar, "https://qzone.qq.com/")), "");
    jar.add_cookie_str(
        "p_skey=key; Domain=.qzone.qq.com; Path=/",
        &url("https://qzone.qq.com/"),
    );
    jar.add_cookie_str("uin=o010; Domain=.qq.com; Path=/", &url("https://qq.com/"));
    let cookies = jar_cookies(&jar, "https://qzone.qq.com/");
    assert_eq!(cookies.get("p_skey").map(String::as_str), Some("key"));
    assert_eq!(cookies.get("uin").map(String::as_str), Some("o010"));
    let elsewhere = jar_cookies(&jar, "https://qq.com/");
    assert!(elsewhere.get("p_skey").is_none());
    assert!(jar_cookies(&jar, "no address").get("uin").is_none());
}

#[test]
fn qq_domains_are_allowed() {
    for domain in ["qq.com", ".qq.com", "..QQ.com", "i.qq.com", "QZONE.qq.COM"] {
        assert!(allowed_qq_cookie_domain(Some(domain)), "{domain}");
    }
    for domain in ["", ".", "qq.com.", "xqq.com", "a.qq.com", "qq.com.cn", " qq.com"] {
        assert!(!allowed_qq_cookie_domain(Some(domain)), "{domain}");
    }
    assert!(!allowed_qq_cookie_domain(None));
}

#[test]
fn five_cookies_are_needed() {
    for name in ["uin", "p_uin", "p_skey", "skey", "pt4_token"] {
        assert!(is_required_cookie(name));
    }
    for name in ["", "UIN", "uin ", "pt_token", "qrsig"] {
        assert!(!is_required_cookie(name));
    }
}

fn address(scheme: &str, host: Option<&str>, path: &str) -> LoginUrl {
    LoginUrl {
        href: String::new(),
        scheme: scheme.to_string(),
        host: host.map(str::to_string),
        path: path.to_string(),
        query: vec![],
    }
}

#[test]
fn login_hops_are_checked() {
    for host in ["ptlogin2.qzone.qq.com", "ssl.ptlogin2.qq.com", "ptlogin2.qq.com"] {
        assert!(validate_login_hop(&address("https", Some(host), "/any/path")));
        assert!(!validate_login_hop(&address("http", Some(host), "/any/path")));
    }
    for host in ["qzone.qq.com", "h5.qzone.qq.com"] {
        for path in ["/", "/mqzone/index", "/index"] {
            assert!(validate_login_hop(&address("https", Some(host), path)));
        }
        assert!(!validate_login_hop(&address("https", Some(host), "/other")));
        assert!(!validate_login_hop(&address("https", Some(host), "")));
    }
    assert!(!validate_login_hop(&address("https", Some("qq.com"), "/")));
    assert!(!validate_login_hop(&address("https", None, "/")));
}

#[test]
fn success_addresses_are_checked() {
    let good = "https://ptlogin2.qzone.qq.com/check_sig?pttype=1&uin=o10001&ptsigx=ab%20c";
    let found = validate_success_url(good).ok().unwrap();
    assert_eq!(found.href, good);
    assert_eq!(found.scheme, "https");
    assert_eq!(found.host.as_deref(), Some("ptlogin2.qzone.qq.com"));
    assert_eq!(found.path, "/check_sig");
    assert_eq!(
        query_value(&found.query, "ptsigx").map(String::as_str),
        Some("ab c")
    );
    assert_eq!(query_value(&found.query, "none"), None);
    assert!(validate_login_hop(&found));
}

#[test]
fn bad_success_addresses_are_refused() {
    for (value, message) in [
        ("", "登录跳转地址无效"),
        ("/check_sig?uin=1&ptsigx=2", "登录跳转地址无效"),
        ("http://ptlogin2.qq.com/check_sig?uin=1&ptsigx=2", "登录跳转地址不受信任"),
        ("https://ptlogin2.qq.com.evil/check_sig?uin=1&ptsigx=2", "登录跳转地址不受信任"),
        ("https://qzone.qq.com/check_sig?uin=1&ptsigx=2", "登录跳转地址不受信任"),
        ("https://ptlogin2.qq.com/check_sig/?uin=1&ptsigx=2", "登录跳转地址不受信任"),
        ("https://ptlogin2.qq.com/check_sig", "登录跳转信息不完整"),
        ("https://ptlogin2.qq.com/check_sig?uin=&ptsigx=2", "登录跳转信息不完整"),
        ("https://ptlogin2.qq.com/check_sig?uin=1", "登录跳转信息不完整"),
    ] {
        assert_eq!(validate_success_url(value).err().as_deref(), Some(message), "{value}");
    }
    assert_eq!(
        check_success_url(None).err().as_deref(),
        Some("登录跳转地址无效")
    );
}

#[test]
fn later_values_count_in_success_addresses() {
    let found =
        validate_success_url("https://ptlogin2.qq.com/check_sig?uin=&uin=7&ptsigx=x").ok().unwrap();
    assert_eq!(query_value(&found.query, "uin").map(String::as_str), Some(""));
}

#[test]
fn redirections_are_relative_to_their_page() {
    let base = validate_success_url("https://ptlogin2.qq.com/check_sig?uin=1&ptsigx=2").ok().unwrap();
    let next = redirect_target(&base, "/jump?a=1&b=%E7%99%BB").unwrap();
    assert_eq!(next.href, "https://ptlogin2.qq.com/jump?a=1&b=%E7%99%BB");
    assert_eq!(next.path, "/jump");
    assert_eq!(query_value(&next.query, "b").map(String::as_str), Some("登"));
    let away = redirect_target(&base, "https://H5.qzone.qq.com/mqzone/index").unwrap();
    assert_eq!(away.host.as_deref(), Some("h5.qzone.qq.com"));
    assert!(validate_login_hop(&away));
    assert!(redirect_target(&base, "https://").is_none());
}

#[test]
fn queries_are_encoded() {
    let pairs = vec![
        ("a".to_string(), "1 2".to_string()),
        ("登".to_string(), "=&".to_string()),
    ];
    assert_eq!(
        query_url("https://qq.com/x", &pairs, "bad"),
        Ok("https://qq.com/x?a=1+2&%E7%99%BB=%3D%26".to_string())
    );
    assert_eq!(query_url("qq.com", &pairs, "bad"), Err("bad".to_string()));
}
