use easy_proxy::keychain::{
    delete_password, get_password, get_password_args, password_source, set_password,
    set_password_args, PasswordSource, SecurityRun,
};
use easy_proxy::login::{
    curl_get, curl_post, extract_phone, find, login_password, mask_phone, parse_phone, phone_from,
    psw_config, reason_from, resend_sms, rsa_encrypt, run_curl, sms_outcome, sms_verdict,
    submit_sms, twfid_from_jar, CurlError, CurlRun, LoginAction, LoginError, LoginEvent, LoginJob, LoginStage,
    PswConfig, PwOutcome, RsaError, SmsOutcome,
};
use easy_proxy::words::{word, Arg};
use rsa::traits::PublicKeyParts;

#[test]
fn mask_full_cn_mobile() {
    assert_eq!(mask_phone("13800138000"), "138****8000");
    assert_eq!(mask_phone("13912345678"), "139****5678");
}

#[test]
fn mask_leaves_already_masked_and_non_phone() {
    assert_eq!(mask_phone("176****2966"), "176****2966");
    assert_eq!(mask_phone("12345"), "12345");
    assert_eq!(mask_phone("not-a-phone"), "not-a-phone");
}

#[test]
fn masking_is_stable() {
    assert_eq!(mask_phone(&mask_phone("13800138000")), "138****8000");
    assert_eq!(mask_phone("23800138000"), "23800138000");
    assert_eq!(mask_phone(" 13800138000\n"), "138****8000");
}

#[test]
fn extract_phone_from_server_text() {
    assert_eq!(
        extract_phone("The passcode has been sent to 176****2966."),
        Some("176****2966".to_string())
    );
    assert_eq!(extract_phone("已发送至 13912345678"), Some("13912345678".to_string()));
    assert_eq!(extract_phone("no digits here"), None);
}

#[test]
fn phones_in_replies() {
    assert_eq!(
        parse_phone("<T_SMSINFOR>sent to 13912345678</T_SMSINFOR>"),
        "139****5678"
    );
    assert_eq!(
        parse_phone("<USER_PHONE><![CDATA[13800138000]]></USER_PHONE>"),
        "138****8000"
    );
    assert_eq!(parse_phone("<USER_PHONE>176****2966</USER_PHONE>"), "176****2966");
    assert_eq!(parse_phone("<T_SMSINFOR>soon</T_SMSINFOR>"), "");
    assert_eq!(phone_from(None, Some("a".to_string()), Some("b".to_string())), "a");
    assert_eq!(phone_from(None, None, None), "");
}

#[test]
fn patterns_capture_their_first_group() {
    assert_eq!(find("<a>12</a>", "<a>([0-9]+)</a>"), Some("12".to_string()));
    assert_eq!(find("<a></a>", "<a>([0-9]+)</a>"), None);
}

#[test]
fn sessions_in_cookie_jars() {
    let jar = "# Netscape HTTP Cookie File\n\
               h\tFALSE\t/\tTRUE\t0\tOTHER\tzzz\n\
               h\tFALSE\t/\tTRUE\t0\tTWFID\tABCDEF\n\
               h\tFALSE\t/\tTRUE\t0\tTWFID\tlater\n";
    assert_eq!(twfid_from_jar(jar), Some("ABCDEF".to_string()));
    assert_eq!(twfid_from_jar("a\tTWFID\tb\n"), None);
    assert_eq!(twfid_from_jar(""), None);
}

#[test]
fn encryption_can_be_undone() {
    let mut rng = rand::thread_rng();
    let key = rsa::RsaPrivateKey::new(&mut rng, 512).unwrap();
    let modulus = hex::encode_upper(key.n().to_bytes_be());
    let enc = rsa_encrypt(&modulus, 65537, "secret_42").unwrap();
    assert_eq!(enc.len(), 128);
    let bytes = hex::decode(&enc).unwrap();
    let plain = key.decrypt(rsa::Pkcs1v15Encrypt, &bytes).unwrap();
    assert_eq!(plain, b"secret_42");
    assert_ne!(rsa_encrypt(&modulus, 65537, "secret_42").unwrap(), enc);
    // 53 bytes are the most that 64 leave room for
    assert!(rsa_encrypt(&modulus, 65537, &"x".repeat(53)).is_ok());
    assert_eq!(rsa_encrypt(&modulus, 65537, &"x".repeat(54)), key_error("message too long"));
}

fn key_error(m: &str) -> Result<String, RsaError> {
    Err(RsaError::Key(m.to_string()))
}

#[test]
fn encryption_errors() {
    let hex_error = |m: &str| Err(RsaError::Hex(m.to_string()));
    assert_eq!(rsa_encrypt("abc", 65537, "x"), hex_error("Odd number of digits"));
    assert_eq!(rsa_encrypt("azz0", 65537, "x"), hex_error("Invalid character 'z' at position 1"));
    assert_eq!(rsa_encrypt("é", 65537, "x"), hex_error("Invalid character 'Ã' at position 0"));
    assert_eq!(rsa_encrypt("", 65537, "x"), key_error("invalid modulus"));
    let odd = "f1".repeat(64);
    assert_eq!(rsa_encrypt(&odd, 1, "x"), key_error("public exponent too small"));
    assert_eq!(rsa_encrypt(&odd, 4, "x"), key_error("invalid exponent"));
    assert_eq!(rsa_encrypt(&odd, 1 << 33 | 1, "x"), key_error("public exponent too large"));
    assert_eq!(rsa_encrypt(&"f1".repeat(513), 3, "x"), key_error("modulus too large"));
    assert_eq!(rsa_encrypt(&format!("{}f0", &odd[2..]), 3, "x"), key_error("invalid modulus"));
}

#[test]
fn portal_configuration() {
    let some = |s: &str| Some(s.to_string());
    assert_eq!(
        psw_config(some("aa"), some("3"), some("9")),
        Ok(PswConfig { key: "aa".to_string(), exp: 3, csrf: "9".to_string() })
    );
    assert_eq!(psw_config(some("aa"), None, some("9")).unwrap().exp, 65537);
    assert_eq!(
        psw_config(some("aa"), some("99999999999999999999"), some("9")).unwrap().exp,
        65537
    );
    assert_eq!(psw_config(None, None, some("9")), Err(LoginError::NoKey));
    assert_eq!(psw_config(some("aa"), None, None), Err(LoginError::NoCsrf));
}

fn job() -> LoginJob {
    LoginJob {
        server: "vpn.example.com".to_string(),
        port: 443,
        username: "u".to_string(),
        password: "p".to_string(),
        jar: b"/tmp/jar".to_vec(),
    }
}

fn body(s: &str) -> LoginEvent {
    LoginEvent::Body(s.to_string())
}

#[test]
fn a_login_with_the_right_password() {
    let job = job();
    let (at, first) = login_password(&job, LoginStage::Start, LoginEvent::Begin);
    assert_eq!(
        first,
        LoginAction::Request(curl_get(
            "https://vpn.example.com:443",
            "/por/login_auth.csp?apiversion=1",
            b"/tmp/jar"
        ))
    );
    let (at, second) = login_password(&job, at, body("<ok/>"));
    assert_eq!(
        second,
        LoginAction::Request(curl_get(
            "https://vpn.example.com:443",
            "/public/psw_config?apiversion=1",
            b"/tmp/jar"
        ))
    );
    let mut rng = rand::thread_rng();
    let key = rsa::RsaPrivateKey::new(&mut rng, 512).unwrap();
    let modulus = hex::encode_upper(key.n().to_bytes_be());
    let config = format!(
        "<RSA_ENCRYPT_KEY>{modulus}</RSA_ENCRYPT_KEY><RSA_ENCRYPT_EXP>65537</RSA_ENCRYPT_EXP>\
         <CSRF_RAND_CODE>123</CSRF_RAND_CODE>"
    );
    let (at, third) = login_password(&job, at, body(&config));
    assert_eq!(at, LoginStage::Password);
    let argv = match third {
        LoginAction::Request(argv) => argv,
        other => panic!("{other:?}"),
    };
    let texts: Vec<&String> = argv
        .iter()
        .filter_map(|a| match a {
            Arg::Text(t) => Some(t),
            Arg::Path(_) => None,
        })
        .collect();
    let field = texts.iter().find(|a| a.starts_with("svpn_password=")).unwrap();
    let bytes = hex::decode(&field["svpn_password=".len()..]).unwrap();
    assert_eq!(key.decrypt(rsa::Pkcs1v15Encrypt, &bytes).unwrap(), b"p_123");
    assert!(argv.contains(&word("svpn_req_randcode=123")));
    assert!(argv.contains(&word("svpn_name=u")));
    let (at, fourth) = login_password(&job, at, body("<Result>2</Result>"));
    assert_eq!(
        fourth,
        LoginAction::Request(curl_post(
            "https://vpn.example.com:443",
            "/por/login_sms.csp?apiversion=1",
            &[],
            b"/tmp/jar"
        ))
    );
    let (at, last) = login_password(&job, at, body("<USER_PHONE>13800138000</USER_PHONE>"));
    assert_eq!(at, LoginStage::Done);
    assert_eq!(
        last,
        LoginAction::Finish(PwOutcome::SmsSent { phone: "138****8000".to_string() })
    );
    assert_eq!(login_password(&job, at, body("x")), (LoginStage::Done, LoginAction::Wait));
}

#[test]
fn a_login_that_fails() {
    let job = job();
    let down = || CurlError::Failed("down".to_string());
    assert_eq!(
        login_password(&job, LoginStage::Auth, LoginEvent::Failed(down())),
        (LoginStage::Done, LoginAction::Fail(LoginError::Auth(down())))
    );
    assert_eq!(
        login_password(&job, LoginStage::Sms, LoginEvent::Failed(down())),
        (LoginStage::Done, LoginAction::Fail(LoginError::Request(down())))
    );
    assert_eq!(
        login_password(&job, LoginStage::Config, body("")),
        (LoginStage::Done, LoginAction::Fail(LoginError::NoKey))
    );
    assert_eq!(
        login_password(
            &job,
            LoginStage::Config,
            body("<RSA_ENCRYPT_KEY>abc</RSA_ENCRYPT_KEY><CSRF_RAND_CODE>1</CSRF_RAND_CODE>")
        ),
        (LoginStage::Done, LoginAction::Fail(LoginError::Encrypt(RsaError::Hex(
                "Odd number of digits".to_string()
            ))))
    );
    assert_eq!(
        login_password(&job, LoginStage::Password, body("<Message>no</Message>")),
        (
            LoginStage::Done,
            LoginAction::Finish(PwOutcome::PasswordRejected("no".to_string()))
        )
    );
    assert_eq!(
        login_password(&job, LoginStage::Password, body("")),
        (
            LoginStage::Done,
            LoginAction::Finish(PwOutcome::PasswordRejected("登录被拒".to_string()))
        )
    );
    assert_eq!(
        reason_from(Some("a".to_string()), Some("b".to_string()), "c"),
        "a"
    );
}

#[test]
fn error_messages() {
    let gone = || CurlError::NotStarted("x".to_string());
    assert_eq!(gone().headline(), "无法执行 curl");
    assert_eq!(gone().message(), "无法执行 curl: x");
    assert_eq!(CurlError::Failed("y".to_string()).headline(), "curl 失败: y");
    assert_eq!(CurlError::Failed("y".to_string()).message(), "curl 失败: y");
    let auth = LoginError::Auth(gone());
    assert_eq!(auth.headline(), "login_auth 请求失败（网络/证书问题？）");
    assert_eq!(auth.message(), "login_auth 请求失败（网络/证书问题？）: 无法执行 curl: x");
    assert_eq!(LoginError::Request(gone()).headline(), "无法执行 curl");
    assert_eq!(LoginError::Request(gone()).message(), "无法执行 curl: x");
    assert_eq!(LoginError::NoKey.message(), "psw_config 缺少 RSA_ENCRYPT_KEY");
    assert_eq!(LoginError::NoCsrf.message(), "psw_config 缺少 CSRF_RAND_CODE");
    let enc = LoginError::Encrypt(RsaError::Key("message too long".to_string()));
    assert_eq!(enc.headline(), "RSA 加密失败");
    assert_eq!(enc.message(), "RSA 加密失败: message too long");
    assert_eq!(LoginError::NoTwfid.message(), "认证成功但未解析到 TWFID");
}

#[test]
fn requests_for_codes() {
    let again = resend_sms("h", 443, b"j");
    assert_eq!(again[again.len() - 1], word("https://h:443/por/post_sms.csp?apiversion=1"));
    assert_eq!(again[again.len() - 3..again.len() - 1], [word("-d"), word("")]);
    assert_eq!(again.iter().filter(|a| **a == Arg::Path(b"j".to_vec())).count(), 2);
    let hand_in = submit_sms("h", 443, b"j", " 1234 ");
    assert_eq!(hand_in[hand_in.len() - 1], word("https://h:443/por/login_sms1.csp?apiversion=1"));
    assert_eq!(hand_in[hand_in.len() - 2], word("svpn_inputsms=1234"));
}

#[test]
fn verdicts_on_codes() {
    assert_eq!(
        sms_outcome("<Result>1</Result><TwfID>ABCDEF0123456789</TwfID>", None),
        Ok(SmsOutcome::Accepted("abcdef0123456789".to_string()))
    );
    assert_eq!(
        sms_outcome("Auth sms suc", Some("h\tFALSE\t/\tTRUE\t0\tTWFID\tABC\n")),
        Ok(SmsOutcome::Accepted("abc".to_string()))
    );
    assert_eq!(sms_outcome("Auth sms suc", None), Err(LoginError::NoTwfid));
    assert_eq!(
        sms_outcome("<Message><![CDATA[wrong]]></Message>", None),
        Ok(SmsOutcome::Rejected("wrong".to_string()))
    );
    assert_eq!(sms_outcome("", None), Ok(SmsOutcome::Rejected("验证码校验失败".to_string())));
    assert_eq!(
        sms_verdict(true, Some("ÀB".to_string()), None, None),
        Ok(SmsOutcome::Accepted("àb".to_string()))
    );
}

#[test]
fn requests_that_fail() {
    assert_eq!(
        run_curl(CurlRun::NotStarted("gone".to_string())),
        Err(CurlError::NotStarted("gone".to_string()))
    );
    assert_eq!(
        run_curl(CurlRun::Ended {
            success: false,
            stdout: "x".to_string(),
            stderr: " bad \n".to_string()
        }),
        Err(CurlError::Failed("bad".to_string()))
    );
    assert_eq!(
        run_curl(CurlRun::Ended {
            success: true,
            stdout: "x".to_string(),
            stderr: String::new()
        }),
        Ok("x".to_string())
    );
}

#[test]
fn the_environment_goes_before_the_keychain() {
    assert_eq!(
        password_source(Some("pw".to_string())),
        PasswordSource::Given("pw".to_string())
    );
    assert_eq!(password_source(None), PasswordSource::Keychain);
}

#[test]
fn stored_passwords() {
    assert_eq!(get_password_args("u")[0], "/usr/bin/security");
    let found = |success, stdout: &str| SecurityRun::Ended {
        success,
        stdout: stdout.to_string(),
        stderr: " why \n".to_string(),
    };
    assert_eq!(get_password(&found(true, " pw \n")), Some(" pw ".to_string()));
    assert_eq!(get_password(&found(true, "\n")), None);
    assert_eq!(get_password(&found(false, "pw\n")), None);
    assert_eq!(get_password(&SecurityRun::NotStarted("x".to_string())), None);
    assert!(set_password_args("u", "pw").contains(&"pw".to_string()));
    assert_eq!(set_password(&found(true, "")), Ok(()));
    let refused = set_password(&found(false, "")).unwrap_err();
    assert!(refused.ends_with("why"));
    assert!(delete_password("u").contains(&"delete-generic-password".to_string()));
}
