//! Logging in at the portal: password and RSA first, then the SMS code.
//!
//! The requests are made by `curl`; this module says with which arguments, and what to make of
//! the replies. [`login_password`] runs through the requests up to the SMS; [`resend_sms`] and
//! [`submit_sms`] are one request each.

use vstd::prelude::*;

use crate::decimal;
use crate::outside;
use crate::text;
use crate::words;
use crate::words::{Arg, Word};

verus! {

pub const UA: &'static str = "Mozilla/5.0 (Macintosh; Intel Mac OS X 10_15_7) AppleWebKit/537.36 (KHTML, like Gecko) Chrome/150.0.0.0 Safari/537.36";

/// The variables that would send a request through a proxy. A login has to reach the gateway
/// directly, so none of them is handed on.
pub const PROXY_ENV: [&'static str; 10] = [
    "http_proxy",
    "https_proxy",
    "all_proxy",
    "no_proxy",
    "ftp_proxy",
    "HTTP_PROXY",
    "HTTPS_PROXY",
    "ALL_PROXY",
    "NO_PROXY",
    "FTP_PROXY",
];

/// What came of a password.
#[derive(Debug, PartialEq, Eq)]
pub enum PwOutcome {
    /// It was taken, and an SMS was sent to this phone (empty where the portal does not say).
    SmsSent { phone: String },
    /// It was refused, for this reason, and no SMS was sent.
    PasswordRejected(String),
}

/// What came of an SMS code.
#[derive(Debug, PartialEq, Eq)]
pub enum SmsOutcome {
    /// It was taken; this is the session.
    Accepted(String),
    /// It was refused, for this reason.
    Rejected(String),
}

// ---------------------------------------------------------------------------------------
// Requests

/// The beginning of every request.
pub open spec fn curl_head(jar: Seq<u8>) -> Seq<Word> {
    words::plain(
        seq!["/usr/bin/curl"@, "-sS"@, "--max-time"@, "20"@, "-A"@, UA@, "-c"@],
    ) + seq![Word::Path(jar), Word::Text("-b"@), Word::Path(jar)]
}

/// The beginning of every request: the cookies of the session are kept in `jar`.
pub fn curl_base(jar: &[u8]) -> (r: Vec<Arg>)
    ensures
        words::words(r@) == curl_head(jar@),
{
    let r: Vec<Arg> = vec![
        words::word("/usr/bin/curl"),
        words::word("-sS"),
        words::word("--max-time"),
        words::word("20"),
        words::word("-A"),
        words::word(UA),
        words::word("-c"),
        words::path_word(jar),
        words::word("-b"),
        words::path_word(jar),
    ];
    assert(words::words(r@) =~= curl_head(jar@));
    r
}

/// The command line of a GET request.
pub open spec fn get_words(base: Seq<char>, path: Seq<char>, jar: Seq<u8>) -> Seq<Word> {
    curl_head(jar).push(Word::Text(base + path))
}

/// The command line of a GET request.
pub fn curl_get(base: &str, path: &str, jar: &[u8]) -> (r: Vec<Arg>)
    ensures
        words::words(r@) == get_words(base@, path@, jar@),
{
    let mut r = curl_base(jar);
    let ghost head = r@;
    let mut url = base.to_owned();
    url.append(path);
    r.push(Arg::Text(url));
    assert(words::words(r@) =~= words::words(head).push(Word::Text(base@ + path@)));
    r
}

/// A field of a form as `curl` takes it.
pub open spec fn field_word(key: Seq<char>, value: Seq<char>) -> Seq<char> {
    key + "="@ + value
}

/// The words of the fields of a form.
pub open spec fn form_words(fields: Seq<(Seq<char>, Seq<char>)>) -> Seq<Seq<char>>
    decreases fields.len(),
{
    if fields.len() == 0 {
        seq![]
    } else {
        form_words(fields.drop_last()).push("--data-urlencode"@).push(
            field_word(fields.last().0, fields.last().1),
        )
    }
}

/// The command line of a POST request. An empty form is sent as an empty body.
pub open spec fn post_words(
    base: Seq<char>,
    path: Seq<char>,
    fields: Seq<(Seq<char>, Seq<char>)>,
    jar: Seq<u8>,
) -> Seq<Word> {
    let form = if fields.len() == 0 {
        seq!["-d"@, ""@]
    } else {
        form_words(fields)
    };
    curl_head(jar) + words::plain(form.push(base + path))
}

/// The texts of the fields of a form.
pub open spec fn field_texts(fields: Seq<(&str, &str)>) -> Seq<(Seq<char>, Seq<char>)> {
    Seq::new(fields.len(), |i: int| (fields[i].0@, fields[i].1@))
}

/// The command line of a POST request.
pub fn curl_post(base: &str, path: &str, fields: &[(&str, &str)], jar: &[u8]) -> (r: Vec<Arg>)
    ensures
        words::words(r@) == post_words(base@, path@, field_texts(fields@), jar@),
{
    let mut form: Vec<String> = Vec::new();
    let ghost all = field_texts(fields@);
    if fields.len() == 0 {
        form.push("-d".to_owned());
        form.push("".to_owned());
        assert(text::texts(form@) =~= seq!["-d"@, ""@]);
    } else {
        let mut i: usize = 0;
        assert(text::texts(form@) =~= form_words(all.take(0)));
        while i < fields.len()
            invariant
                i <= fields.len(),
                all == field_texts(fields@),
                text::texts(form@) == form_words(all.take(i as int)),
            decreases fields.len() - i,
        {
            let mut field = fields[i].0.to_owned();
            field.append("=");
            field.append(fields[i].1);
            let ghost before = form@;
            let ghost word = field@;
            form.push("--data-urlencode".to_owned());
            form.push(field);
            assert(all.take(i + 1).drop_last() =~= all.take(i as int));
            assert(text::texts(form@) =~= text::texts(before).push("--data-urlencode"@).push(word));
            i += 1;
        }
        assert(all.take(i as int) =~= all);
    }
    let mut url = base.to_owned();
    url.append(path);
    proof {
        text::lemma_texts_push(form@, url);
    }
    form.push(url);
    let mut r = curl_base(jar);
    let mut rest = words::plain_words(form);
    let ghost head = r@;
    let ghost tail = rest@;
    r.append(&mut rest);
    assert(words::words(r@) =~= words::words(head) + words::words(tail));
    r
}

/// How a request went.
#[derive(Debug, PartialEq, Eq)]
pub enum CurlRun {
    /// `curl` could not be started, for this reason.
    NotStarted(String),
    Ended { success: bool, stdout: String, stderr: String },
}

/// Why a request brought no reply.
#[derive(Debug, PartialEq, Eq)]
pub enum CurlError {
    /// `curl` could not be started, for this reason.
    NotStarted(String),
    /// `curl` failed, and told this.
    Failed(String),
}

impl CurlError {
    /// What failed.
    pub open spec fn head(self) -> Seq<char> {
        match self {
            CurlError::NotStarted(_) => "无法执行 curl"@,
            CurlError::Failed(e) => "curl 失败: "@ + e@,
        }
    }

    /// What failed, and why.
    pub open spec fn text(self) -> Seq<char> {
        match self {
            CurlError::NotStarted(e) => "无法执行 curl"@ + ": "@ + e@,
            CurlError::Failed(e) => "curl 失败: "@ + e@,
        }
    }

    /// What failed.
    pub fn headline(&self) -> (r: String)
        ensures
            r@ == self.head(),
    {
        match self {
            CurlError::NotStarted(_) => "无法执行 curl".to_owned(),
            CurlError::Failed(e) => {
                let mut m = "curl 失败: ".to_owned();
                m.append(e);
                m
            },
        }
    }

    /// What failed, and why.
    pub fn message(&self) -> (r: String)
        ensures
            r@ == self.text(),
    {
        let mut m = self.headline();
        if let CurlError::NotStarted(e) = self {
            m.append(": ");
            m.append(e);
        }
        m
    }
}

/// The reply to a request, or why there is none.
pub fn run_curl(run: CurlRun) -> (r: Result<String, CurlError>)
    ensures
        match run {
            CurlRun::NotStarted(e) => r matches Err(CurlError::NotStarted(m)) && m@ == e@,
            CurlRun::Ended { success, stdout, stderr } => if success {
                r matches Ok(body) && body@ == stdout@
            } else {
                r matches Err(CurlError::Failed(m)) && m@ == text::trim(stderr@)
            },
        },
{
    match run {
        CurlRun::NotStarted(e) => Err(CurlError::NotStarted(e)),
        CurlRun::Ended { success, stdout, stderr } => {
            if success {
                Ok(stdout)
            } else {
                Err(CurlError::Failed(text::trimmed(&stderr)))
            }
        },
    }
}

/// The address of a portal.
pub open spec fn base_of(server: Seq<char>, port: u16) -> Seq<char> {
    "https://"@ + server + ":"@ + decimal::digits(port as nat)
}

fn base_url(server: &str, port: u16) -> (r: String)
    ensures
        r@ == base_of(server@, port),
{
    let mut base = "https://".to_owned();
    base.append(server);
    base.append(":");
    base.append(&decimal::decimal(port as u64));
    base
}

// ---------------------------------------------------------------------------------------
// Replies

/// What the first group of a pattern captures in a text.
pub fn find(haystack: &str, pattern: &str) -> (r: Option<String>)
    ensures
        text::opt_text(r) == outside::regex_group(pattern@, haystack@),
        r matches Some(s) ==> text::contains(haystack@, s@),
{
    outside::regex_first_group(haystack, pattern)
}

pub const RSA_KEY: &'static str = r"<RSA_ENCRYPT_KEY>([0-9A-Fa-f]+)</RSA_ENCRYPT_KEY>";

pub const RSA_EXP: &'static str = r"<RSA_ENCRYPT_EXP>(\d+)</RSA_ENCRYPT_EXP>";

pub const CSRF_CODE: &'static str = r"<CSRF_RAND_CODE>(\d+)</CSRF_RAND_CODE>";

pub const CDATA_MESSAGE: &'static str = r"<Message><!\[CDATA\[(.*?)\]\]></Message>";

pub const PLAIN_MESSAGE: &'static str = r"<Message>(.*?)</Message>";

pub const SMS_INFO: &'static str = r"<T_SMSINFOR>(.*?)</T_SMSINFOR>";

pub const CDATA_PHONE: &'static str = r"<USER_PHONE><!\[CDATA\[(.*?)\]\]></USER_PHONE>";

pub const PLAIN_PHONE: &'static str = r"<USER_PHONE>(.*?)</USER_PHONE>";

pub const PHONE_DIGITS: &'static str = r"([0-9][0-9*]{6,})";

pub const TWFID_TAG: &'static str = r"<TwfID>([0-9a-fA-F]{16})</TwfID>";

pub const MOBILE: &'static str = "^1[0-9]{10}$";

/// A stretch of a text that looks like a phone number: a digit and at least six more digits or
/// stars.
pub fn extract_phone(s: &str) -> (r: Option<String>)
    ensures
        text::opt_text(r) == outside::regex_group(PHONE_DIGITS@, s@),
        r matches Some(t) ==> text::contains(s@, t@),
{
    find(s, PHONE_DIGITS)
}

/// A mobile number: eleven digits, the first of them a one.
pub open spec fn is_mobile(s: Seq<char>) -> bool {
    s.len() == 11 && s[0] == '1' && text::all_digits(s)
}

/// A phone number as shown: of a mobile number the four digits in the middle are hidden;
/// anything else, and what holds a star already, stays as it is. White space around it goes.
pub open spec fn masked(s: Seq<char>) -> Seq<char> {
    let t = text::trim(s);
    if text::contains(t, "*"@) {
        t
    } else if is_mobile(t) {
        t.subrange(0, 3) + "****"@ + t.subrange(7, 11)
    } else {
        t
    }
}

/// A phone number as shown.
pub fn mask_phone(s: &str) -> (r: String)
    ensures
        r@ == masked(s@),
{
    let t = text::trimmed(s);
    if text::has(&t, "*") {
        return t;
    }
    if outside::regex_is_match(&t, MOBILE) {
        let chars = text::chars_of(&t);
        let mut out = text::string_between(&chars, 0, 3);
        out.append("****");
        out.append(&text::string_between(&chars, 7, 11));
        out
    } else {
        t
    }
}

/// A number as shown is shown as itself.
pub proof fn law_masking_twice(s: Seq<char>)
    ensures
        masked(masked(s)) == masked(s),
{
    reveal_strlit("****");
    reveal_strlit("*");
    let t = text::trim(s);
    text::lemma_trim_ends(s);
    if !text::contains(t, "*"@) && is_mobile(t) {
        let m = masked(s);
        assert(text::is_digit(t[10]));
        assert(!text::is_ws(m[0]) && !text::is_ws(m.last()));
        assert(text::trim(m) == m);
        assert(m.subrange(3, 4) =~= "*"@);
        assert(text::occurs_at(m, "*"@, 3));
    }
}

/// Of a mobile number only the first three and the last four digits are shown.
pub proof fn law_masking_hides_the_middle(s: Seq<char>)
    requires
        is_mobile(text::trim(s)),
    ensures
        masked(s).len() == 11,
        masked(s).subrange(0, 3) == text::trim(s).subrange(0, 3),
        masked(s).subrange(3, 7) == "****"@,
        masked(s).subrange(7, 11) == text::trim(s).subrange(7, 11),
{
    reveal_strlit("****");
    reveal_strlit("*");
    let t = text::trim(s);
    if text::contains(t, "*"@) {
        let i = choose|i: int| text::occurs_at(t, "*"@, i);
        assert(t.subrange(i, i + 1)[0] == '*');
        assert(text::is_digit(t[i]));
    }
    let m = masked(s);
    assert(m.subrange(0, 3) =~= t.subrange(0, 3));
    assert(m.subrange(3, 7) =~= "****"@);
    assert(m.subrange(7, 11) =~= t.subrange(7, 11));
}

/// The phone number of the first finding that is there, as shown; empty where there is none.
pub open spec fn phone_of(
    info: Option<Seq<char>>,
    cdata: Option<Seq<char>>,
    plain: Option<Seq<char>>,
) -> Seq<char> {
    match (info, cdata, plain) {
        (Some(p), _, _) => masked(p),
        (None, Some(p), _) => masked(p),
        (None, None, Some(p)) => masked(p),
        _ => seq![],
    }
}

/// The phone number of the first finding that is there, as shown.
pub fn phone_from(info: Option<String>, cdata: Option<String>, plain: Option<String>) -> (r: String)
    ensures
        r@ == phone_of(text::opt_text(info), text::opt_text(cdata), text::opt_text(plain)),
{
    match (info, cdata, plain) {
        (Some(p), _, _) => mask_phone(&p),
        (None, Some(p), _) => mask_phone(&p),
        (None, None, Some(p)) => mask_phone(&p),
        _ => String::new(),
    }
}

/// The number in the notice of an SMS.
pub open spec fn notice_phone(resp: Seq<char>) -> Option<Seq<char>> {
    match outside::regex_group(SMS_INFO@, resp) {
        Some(info) => outside::regex_group(PHONE_DIGITS@, info),
        None => None,
    }
}

/// The phone number that a reply tells, as shown.
pub open spec fn phone_in(resp: Seq<char>) -> Seq<char> {
    phone_of(
        notice_phone(resp),
        outside::regex_group(CDATA_PHONE@, resp),
        outside::regex_group(PLAIN_PHONE@, resp),
    )
}

/// The phone number that a reply tells, as shown: the one in its notice, else the one of the
/// user.
pub fn parse_phone(sms_resp: &str) -> (r: String)
    ensures
        r@ == phone_in(sms_resp@),
{
    let info = match find(sms_resp, SMS_INFO) {
        Some(s) => extract_phone(&s),
        None => None,
    };
    phone_from(info, find(sms_resp, CDATA_PHONE), find(sms_resp, PLAIN_PHONE))
}

/// A line of a cookie jar that holds the session.
pub open spec fn session_line(line: Seq<char>) -> bool {
    let f = text::split(line, '\t');
    f.len() == 7 && f[5] == "TWFID"@
}

/// The session in the first line of a cookie jar that holds one, among the lines from `from`.
pub open spec fn session_in(lines: Seq<Seq<char>>, from: int) -> Option<Seq<char>>
    decreases lines.len() - from,
{
    if from < 0 || from >= lines.len() {
        None
    } else if session_line(lines[from]) {
        Some(text::split(lines[from], '\t')[6])
    } else {
        session_in(lines, from + 1)
    }
}

/// The session in the text of a cookie jar.
pub fn twfid_from_jar(jar: &str) -> (r: Option<String>)
    ensures
        text::opt_text(r) == session_in(text::lines(jar@), 0),
{
    let lines = text::lines_of(jar);
    let ghost views = text::lines(jar@);
    let mut i: usize = 0;
    while i < lines.len()
        invariant
            i <= lines.len(),
            views == text::texts(lines@),
            views == text::lines(jar@),
            session_in(views, 0) == session_in(views, i as int),
        decreases lines.len() - i,
    {
        let fields = text::split_chars(&text::chars_of(&lines[i]), '\t');
        assert(views[i as int] == lines@[i as int]@);
        let ghost f = text::split(views[i as int], '\t');
        assert(f.len() == fields@.len());
        if fields.len() == 7 {
            assert(f[5] == fields@[5]@ && f[6] == fields@[6]@);
            if text::same_text(&fields[5], "TWFID") {
                return Some(fields[6].clone());
            }
        }
        i += 1;
    }
    None
}

// ---------------------------------------------------------------------------------------
// Encryption

/// Why a password could not be encrypted, with what exactly is wrong.
#[derive(Debug, PartialEq, Eq)]
pub enum RsaError {
    /// The modulus is not made of pairs of hexadecimal digits.
    Hex(String),
    /// The key is not usable, or too short for the text.
    Key(String),
}

impl RsaError {
    /// What is wrong.
    pub open spec fn cause(self) -> Seq<char> {
        match self {
            RsaError::Hex(m) => m@,
            RsaError::Key(m) => m@,
        }
    }
}

/// A text is an encryption of another, in hexadecimal digits.
pub open spec fn encrypts(
    key_hex: Seq<char>,
    exp: u64,
    plaintext: Seq<char>,
    enc: Seq<char>,
) -> bool {
    exists|padding: Seq<u8>, ct: Seq<u8>|
        outside::ciphertext(
            outside::hex_bytes(key_hex),
            exp,
            vstd::utf8::encode_utf8(plaintext),
            padding,
            ct,
        ) && enc == #[trigger] outside::hex_text(ct) && #[trigger] padding.len() >= 8
}

/// What is wrong with a modulus that is not made of pairs of hexadecimal digits.
pub open spec fn hex_complaint(key_hex: Seq<char>) -> Seq<char> {
    let b = vstd::utf8::encode_utf8(key_hex);
    outside::hex_refusal(b, outside::char_debug(outside::offender(b)))
}

/// Encrypts a text with a modulus in hexadecimal digits and an exponent. The padding is chosen
/// at random, so that two encryptions of one text differ.
pub fn rsa_encrypt(key_hex: &str, exp: u64, plaintext: &str) -> (r: Result<String, RsaError>)
    ensures
        match r {
            Ok(enc) => {
                &&& outside::is_hex(key_hex@)
                &&& outside::encryptable(
                    outside::hex_bytes(key_hex@),
                    exp,
                    vstd::utf8::encode_utf8(plaintext@).len() as int,
                )
                &&& encrypts(key_hex@, exp, plaintext@, enc@)
            },
            Err(RsaError::Hex(m)) => !outside::is_hex(key_hex@) && m@ == hex_complaint(key_hex@),
            Err(RsaError::Key(m)) => {
                let len = vstd::utf8::encode_utf8(plaintext@).len() as int;
                let modulus = outside::hex_bytes(key_hex@);
                &&& outside::is_hex(key_hex@)
                &&& !outside::encryptable(modulus, exp, len)
                &&& m@ == outside::rsa_refusal(modulus, exp, len)
            },
        },
{
    let modulus = match outside::hex_decode(key_hex) {
        Ok(b) => b,
        Err(m) => return Err(RsaError::Hex(m)),
    };
    let message = plaintext.as_bytes();
    match outside::rsa_encrypt_pkcs1v15(&modulus, exp, message) {
        Ok(ct) => {
            proof {
                let padding = choose|padding: Seq<u8>| #[trigger]
                    outside::ciphertext(modulus@, exp, message@, padding, ct@);
                assert(padding.len() >= 8);
                assert(outside::hex_text(ct@) == outside::hex_text(ct@));
            }
            Ok(outside::hex_encode(&ct))
        },
        Err(m) => Err(RsaError::Key(m)),
    }
}

// ---------------------------------------------------------------------------------------
// The password

/// Why a login failed.
#[derive(Debug, PartialEq, Eq)]
pub enum LoginError {
    /// The first request failed.
    Auth(CurlError),
    /// A later request failed.
    Request(CurlError),
    /// The portal gave no RSA key.
    NoKey,
    /// The portal gave no code against forged requests.
    NoCsrf,
    Encrypt(RsaError),
    /// The code was taken, but the portal told no session.
    NoTwfid,
}

impl LoginError {
    /// What failed.
    pub open spec fn head(self) -> Seq<char> {
        match self {
            LoginError::Auth(_) => "login_auth 请求失败（网络/证书问题？）"@,
            LoginError::Request(e) => e.head(),
            LoginError::NoKey => "psw_config 缺少 RSA_ENCRYPT_KEY"@,
            LoginError::NoCsrf => "psw_config 缺少 CSRF_RAND_CODE"@,
            LoginError::Encrypt(_) => "RSA 加密失败"@,
            LoginError::NoTwfid => "认证成功但未解析到 TWFID"@,
        }
    }

    /// What failed, and why.
    pub open spec fn text(self) -> Seq<char> {
        match self {
            LoginError::Auth(e) => self.head() + ": "@ + e.text(),
            LoginError::Request(e) => e.text(),
            LoginError::Encrypt(e) => self.head() + ": "@ + e.cause(),
            _ => self.head(),
        }
    }

    /// What failed.
    pub fn headline(&self) -> (r: String)
        ensures
            r@ == self.head(),
    {
        match self {
            LoginError::Auth(_) => "login_auth 请求失败（网络/证书问题？）".to_owned(),
            LoginError::Request(e) => e.headline(),
            LoginError::NoKey => "psw_config 缺少 RSA_ENCRYPT_KEY".to_owned(),
            LoginError::NoCsrf => "psw_config 缺少 CSRF_RAND_CODE".to_owned(),
            LoginError::Encrypt(_) => "RSA 加密失败".to_owned(),
            LoginError::NoTwfid => "认证成功但未解析到 TWFID".to_owned(),
        }
    }

    /// What failed, and why.
    pub fn message(&self) -> (r: String)
        ensures
            r@ == self.text(),
    {
        let mut m = self.headline();
        match self {
            LoginError::Auth(e) => {
                m.append(": ");
                m.append(&e.message());
                m
            },
            LoginError::Request(e) => e.message(),
            LoginError::Encrypt(RsaError::Hex(e)) => {
                m.append(": ");
                m.append(e);
                m
            },
            LoginError::Encrypt(RsaError::Key(e)) => {
                m.append(": ");
                m.append(e);
                m
            },
            _ => m,
        }
    }
}

/// What the portal says about encrypting the password.
#[derive(Debug, PartialEq, Eq)]
pub struct PswConfig {
    pub key: String,
    pub exp: u64,
    pub csrf: String,
}

/// The exponent that a finding spells; 65537 where there is none or it is no number.
pub open spec fn exponent_of(found: Option<Seq<char>>) -> int {
    match found {
        Some(t) => match decimal::parse_unsigned(t, u64::MAX as int) {
            Some(e) => e,
            None => 65537,
        },
        None => 65537,
    }
}

/// What the portal says about encrypting the password, from what was found in its reply. The
/// key and the code have to be there.
pub fn psw_config(key: Option<String>, exp: Option<String>, csrf: Option<String>) -> (r: Result<
    PswConfig,
    LoginError,
>)
    ensures
        match r {
            Ok(c) => {
                &&& text::opt_text(key) == Some(c.key@)
                &&& text::opt_text(csrf) == Some(c.csrf@)
                &&& c.exp == exponent_of(text::opt_text(exp))
            },
            Err(LoginError::NoKey) => key is None,
            Err(LoginError::NoCsrf) => key is Some && csrf is None,
            Err(_) => false,
        },
{
    let key = match key {
        Some(k) => k,
        None => return Err(LoginError::NoKey),
    };
    let exp: u64 = match exp {
        Some(e) => match decimal::parse_number(&e, u64::MAX) {
            Some(v) => v,
            None => 65537,
        },
        None => 65537,
    };
    match csrf {
        Some(csrf) => Ok(PswConfig { key, exp, csrf }),
        None => Err(LoginError::NoCsrf),
    }
}

/// What is to be logged in.
#[derive(Debug)]
pub struct LoginJob {
    pub server: String,
    pub port: u16,
    pub username: String,
    pub password: String,
    /// The cookie jar.
    pub jar: Vec<u8>,
}

/// How far a login is.
#[derive(Debug, Clone, Copy, PartialEq, Eq, Structural)]
pub enum LoginStage {
    /// Nothing was sent yet.
    Start,
    /// The session is being opened.
    Auth,
    /// The key is being asked for.
    Config,
    /// The password is being checked.
    Password,
    /// The phone is being asked for.
    Sms,
    Done,
}

/// What has happened to a login.
#[derive(Debug, PartialEq, Eq)]
pub enum LoginEvent {
    /// It begins.
    Begin,
    /// This is the reply to the request.
    Body(String),
    /// The request failed, for this reason.
    Failed(CurlError),
}

/// What to do next in a login.
#[derive(Debug, PartialEq, Eq)]
pub enum LoginAction {
    /// Run this command line.
    Request(Vec<Arg>),
    Finish(PwOutcome),
    Fail(LoginError),
    /// What happened does not concern this stage.
    Wait,
}

/// The text that is encrypted: the password and the code.
pub open spec fn secret_text(password: Seq<char>, csrf: Seq<char>) -> Seq<char> {
    password + "_"@ + csrf
}

/// The command line that hands in an encrypted password.
pub open spec fn psw_words(job: LoginJob, csrf: Seq<char>, enc: Seq<char>) -> Seq<Word> {
    post_words(
        base_of(job.server@, job.port),
        "/por/login_psw.csp?anti_replay=1&encrypt=1&apiversion=1"@,
        seq![
            ("svpn_rand_code"@, ""@),
            ("mitm"@, ""@),
            ("svpn_req_randcode"@, csrf),
            ("svpn_name"@, job.username@),
            ("svpn_password"@, enc),
        ],
        job.jar@,
    )
}

/// The command line that hands in an encrypted password.
pub fn psw_request(job: &LoginJob, csrf: &str, enc: &str) -> (r: Vec<Arg>)
    ensures
        words::words(r@) == psw_words(*job, csrf@, enc@),
        words::words(r@).last() == Word::Text(
            "https://"@ + job.server@ + ":"@ + decimal::digits(job.port as nat)
                + "/por/login_psw.csp?anti_replay=1&encrypt=1&apiversion=1"@,
        ),
{
    proof {
        law_where_a_password_goes(*job, csrf@, enc@);
    }
    let fields: [(&str, &str); 5] = [
        ("svpn_rand_code", ""),
        ("mitm", ""),
        ("svpn_req_randcode", csrf),
        ("svpn_name", job.username.as_str()),
        ("svpn_password", enc),
    ];
    assert(field_texts(fields@) =~= seq![
        ("svpn_rand_code"@, ""@),
        ("mitm"@, ""@),
        ("svpn_req_randcode"@, csrf@),
        ("svpn_name"@, job.username@),
        ("svpn_password"@, enc@),
    ]);
    let base = base_url(&job.server, job.port);
    curl_post(
        &base,
        "/por/login_psw.csp?anti_replay=1&encrypt=1&apiversion=1",
        &fields,
        &job.jar,
    )
}

/// A reply says that the password was taken.
pub open spec fn password_taken(psw: Seq<char>) -> bool {
    text::contains(psw, "auth/sms"@) || text::contains(psw, "<Result>2</Result>"@)
}

/// The reason for a refusal: the first finding that is there, else a general one.
pub open spec fn reason_of(
    cdata: Option<Seq<char>>,
    plain: Option<Seq<char>>,
    general: Seq<char>,
) -> Seq<char> {
    match (cdata, plain) {
        (Some(m), _) => m,
        (None, Some(m)) => m,
        _ => general,
    }
}

/// The reason for a refusal: the first finding that is there, else a general one.
pub fn reason_from(cdata: Option<String>, plain: Option<String>, general: &str) -> (r: String)
    ensures
        r@ == reason_of(text::opt_text(cdata), text::opt_text(plain), general@),
{
    match (cdata, plain) {
        (Some(m), _) => m,
        (None, Some(m)) => m,
        _ => general.to_owned(),
    }
}

/// The reason that a reply gives for refusing the password.
pub open spec fn password_refusal(psw: Seq<char>) -> Seq<char> {
    reason_of(
        outside::regex_group(CDATA_MESSAGE@, psw),
        outside::regex_group(PLAIN_MESSAGE@, psw),
        "登录被拒"@,
    )
}

/// What the reply to the key request leads to.
pub open spec fn after_config(
    job: LoginJob,
    body: Seq<char>,
    stage: LoginStage,
    action: LoginAction,
) -> bool {
    let key = outside::regex_group(RSA_KEY@, body);
    let exp = exponent_of(outside::regex_group(RSA_EXP@, body)) as u64;
    let csrf = outside::regex_group(CSRF_CODE@, body);
    if key is None {
        stage == LoginStage::Done && action == LoginAction::Fail(LoginError::NoKey)
    } else if csrf is None {
        stage == LoginStage::Done && action == LoginAction::Fail(LoginError::NoCsrf)
    } else if !outside::is_hex(key->0) {
        &&& stage == LoginStage::Done
        &&& action matches LoginAction::Fail(LoginError::Encrypt(RsaError::Hex(m)))
        &&& m@ == hex_complaint(key->0)
    } else if !outside::encryptable(
        outside::hex_bytes(key->0),
        exp,
        vstd::utf8::encode_utf8(secret_text(job.password@, csrf->0)).len() as int,
    ) {
        &&& stage == LoginStage::Done
        &&& action matches LoginAction::Fail(LoginError::Encrypt(RsaError::Key(m)))
        &&& m@ == outside::rsa_refusal(
            outside::hex_bytes(key->0),
            exp,
            vstd::utf8::encode_utf8(secret_text(job.password@, csrf->0)).len() as int,
        )
    } else {
        &&& stage == LoginStage::Password
        &&& action matches LoginAction::Request(w)
        &&& exists|enc: Seq<char>|
            encrypts(key->0, exp, secret_text(job.password@, csrf->0), enc) && words::words(w@)
                == #[trigger] psw_words(job, csrf->0, enc)
    }
}

/// What an event leads to.
pub open spec fn login_step(
    job: LoginJob,
    at: LoginStage,
    ev: LoginEvent,
    stage: LoginStage,
    action: LoginAction,
) -> bool {
    let base = base_of(job.server@, job.port);
    match (at, ev) {
        (LoginStage::Start, _) => {
            &&& stage == LoginStage::Auth
            &&& action matches LoginAction::Request(w)
            &&& words::words(w@) == get_words(base, "/por/login_auth.csp?apiversion=1"@, job.jar@)
        },
        (LoginStage::Done, _) => stage == at && action == LoginAction::Wait,
        (_, LoginEvent::Begin) => stage == at && action == LoginAction::Wait,
        (LoginStage::Auth, LoginEvent::Failed(e)) => {
            &&& stage == LoginStage::Done
            &&& action matches LoginAction::Fail(LoginError::Auth(m))
            &&& m == e
        },
        (_, LoginEvent::Failed(e)) => {
            &&& stage == LoginStage::Done
            &&& action matches LoginAction::Fail(LoginError::Request(m))
            &&& m == e
        },
        (LoginStage::Auth, LoginEvent::Body(_)) => {
            &&& stage == LoginStage::Config
            &&& action matches LoginAction::Request(w)
            &&& words::words(w@) == get_words(base, "/public/psw_config?apiversion=1"@, job.jar@)
        },
        (LoginStage::Config, LoginEvent::Body(body)) => after_config(job, body@, stage, action),
        (LoginStage::Password, LoginEvent::Body(body)) => if password_taken(body@) {
            &&& stage == LoginStage::Sms
            &&& action matches LoginAction::Request(w)
            &&& words::words(w@) == post_words(
                base,
                "/por/login_sms.csp?apiversion=1"@,
                seq![],
                job.jar@,
            )
        } else {
            &&& stage == LoginStage::Done
            &&& action matches LoginAction::Finish(PwOutcome::PasswordRejected(m))
            &&& m@ == password_refusal(body@)
        },
        (LoginStage::Sms, LoginEvent::Body(body)) => {
            &&& stage == LoginStage::Done
            &&& action matches LoginAction::Finish(PwOutcome::SmsSent { phone })
            &&& phone@ == phone_in(body@)
        },
    }
}

/// What follows on the reply to the key request: the password, encrypted, is handed in.
pub fn pre_sms(job: &LoginJob, body: &str) -> (r: (LoginStage, LoginAction))
    ensures
        after_config(*job, body@, r.0, r.1),
{
    let key = find(body, RSA_KEY);
    let exp = find(body, RSA_EXP);
    let csrf = find(body, CSRF_CODE);
    let cfg = match psw_config(key, exp, csrf) {
        Ok(c) => c,
        Err(e) => return (LoginStage::Done, LoginAction::Fail(e)),
    };
    let mut secret = job.password.clone();
    secret.append("_");
    secret.append(&cfg.csrf);
    match rsa_encrypt(&cfg.key, cfg.exp, &secret) {
        Ok(enc) => {
            let request = psw_request(job, &cfg.csrf, &enc);
            (LoginStage::Password, LoginAction::Request(request))
        },
        Err(e) => (LoginStage::Done, LoginAction::Fail(LoginError::Encrypt(e))),
    }
}

/// One step of a login with a password: open a session, ask for the key, hand in the encrypted
/// password and ask for the phone that the SMS was sent to. The portal sends the SMS as soon as
/// it takes the password.
pub fn login_password(job: &LoginJob, at: LoginStage, ev: LoginEvent) -> (r: (
    LoginStage,
    LoginAction,
))
    ensures
        login_step(*job, at, ev, r.0, r.1),
{
    let base = base_url(&job.server, job.port);
    match at {
        LoginStage::Start => (
            LoginStage::Auth,
            LoginAction::Request(curl_get(&base, "/por/login_auth.csp?apiversion=1", &job.jar)),
        ),
        LoginStage::Done => (at, LoginAction::Wait),
        LoginStage::Auth => match ev {
            LoginEvent::Begin => (at, LoginAction::Wait),
            LoginEvent::Failed(e) => (LoginStage::Done, LoginAction::Fail(LoginError::Auth(e))),
            LoginEvent::Body(_) => (
                LoginStage::Config,
                LoginAction::Request(curl_get(&base, "/public/psw_config?apiversion=1", &job.jar)),
            ),
        },
        LoginStage::Config => match ev {
            LoginEvent::Begin => (at, LoginAction::Wait),
            LoginEvent::Failed(e) => (LoginStage::Done, LoginAction::Fail(LoginError::Request(e))),
            LoginEvent::Body(body) => pre_sms(job, &body),
        },
        LoginStage::Password => match ev {
            LoginEvent::Begin => (at, LoginAction::Wait),
            LoginEvent::Failed(e) => (LoginStage::Done, LoginAction::Fail(LoginError::Request(e))),
            LoginEvent::Body(psw) => {
                if text::has(&psw, "auth/sms") || text::has(&psw, "<Result>2</Result>") {
                    let none: [(&str, &str); 0] = [];
                    assert(field_texts(none@) =~= Seq::<(Seq<char>, Seq<char>)>::empty());
                    (
                        LoginStage::Sms,
                        LoginAction::Request(
                            curl_post(&base, "/por/login_sms.csp?apiversion=1", &none, &job.jar),
                        ),
                    )
                } else {
                    let why = reason_from(
                        find(&psw, CDATA_MESSAGE),
                        find(&psw, PLAIN_MESSAGE),
                        "登录被拒",
                    );
                    (LoginStage::Done, LoginAction::Finish(PwOutcome::PasswordRejected(why)))
                }
            },
        },
        LoginStage::Sms => match ev {
            LoginEvent::Begin => (at, LoginAction::Wait),
            LoginEvent::Failed(e) => (LoginStage::Done, LoginAction::Fail(LoginError::Request(e))),
            LoginEvent::Body(resp) => (
                LoginStage::Done,
                LoginAction::Finish(PwOutcome::SmsSent { phone: parse_phone(&resp) }),
            ),
        },
    }
}

// ---------------------------------------------------------------------------------------
// The SMS code

/// The command line that asks the portal for another SMS.
pub fn resend_sms(server: &str, port: u16, jar: &[u8]) -> (r: Vec<Arg>)
    ensures
        words::words(r@) == post_words(
            base_of(server@, port),
            "/por/post_sms.csp?apiversion=1"@,
            seq![],
            jar@,
        ),
{
    let none: [(&str, &str); 0] = [];
    assert(field_texts(none@) =~= Seq::<(Seq<char>, Seq<char>)>::empty());
    let base = base_url(server, port);
    curl_post(&base, "/por/post_sms.csp?apiversion=1", &none, jar)
}

/// The command line that hands in an SMS code. It never causes another SMS.
pub fn submit_sms(server: &str, port: u16, jar: &[u8], code: &str) -> (r: Vec<Arg>)
    ensures
        words::words(r@) == post_words(
            base_of(server@, port),
            "/por/login_sms1.csp?apiversion=1"@,
            seq![("svpn_inputsms"@, text::trim(code@))],
            jar@,
        ),
{
    let trimmed = text::trimmed(code);
    let fields: [(&str, &str); 1] = [("svpn_inputsms", trimmed.as_str())];
    assert(field_texts(fields@) =~= seq![("svpn_inputsms"@, text::trim(code@))]);
    let base = base_url(server, port);
    curl_post(&base, "/por/login_sms1.csp?apiversion=1", &fields, jar)
}

/// A reply says that the code was taken.
pub open spec fn code_taken(resp: Seq<char>) -> bool {
    text::contains(resp, "<Result>1</Result>"@) || text::contains(resp, "Auth sms suc"@)
}

/// What the findings in the reply to a code lead to: a session, from the reply or else from the
/// cookie jar, where the code was taken; the reason for the refusal where it was not.
pub fn sms_verdict(
    taken: bool,
    tagged: Option<String>,
    stored: Option<String>,
    message: Option<String>,
) -> (r: Result<SmsOutcome, LoginError>)
    ensures
        if taken {
            match (tagged, stored) {
                (Some(t), _) => r matches Ok(SmsOutcome::Accepted(id)) && id@
                    == outside::lower_case(t@),
                (None, Some(t)) => r matches Ok(SmsOutcome::Accepted(id)) && id@
                    == outside::lower_case(t@),
                _ => r == Err::<SmsOutcome, LoginError>(LoginError::NoTwfid),
            }
        } else {
            r matches Ok(SmsOutcome::Rejected(why)) && why@ == (match message {
                Some(m) => m@,
                None => "验证码校验失败"@,
            })
        },
{
    if taken {
        match (tagged, stored) {
            (Some(t), _) => Ok(SmsOutcome::Accepted(outside::to_lowercase(&t))),
            (None, Some(t)) => Ok(SmsOutcome::Accepted(outside::to_lowercase(&t))),
            _ => Err(LoginError::NoTwfid),
        }
    } else {
        match message {
            Some(m) => Ok(SmsOutcome::Rejected(m)),
            None => Ok(SmsOutcome::Rejected("验证码校验失败".to_owned())),
        }
    }
}

/// The session in a cookie jar that could be read.
pub open spec fn stored_session(jar: Option<Seq<char>>) -> Option<Seq<char>> {
    match jar {
        Some(j) => session_in(text::lines(j), 0),
        None => None,
    }
}

/// The session that a code which was taken brings.
pub open spec fn session_for(resp: Seq<char>, jar: Option<Seq<char>>) -> Option<Seq<char>> {
    match outside::regex_group(TWFID_TAG@, resp) {
        Some(t) => Some(t),
        None => stored_session(jar),
    }
}

/// What came of an SMS code, from the reply to it and the text of the cookie jar.
pub fn sms_outcome(resp: &str, jar: Option<&str>) -> (r: Result<SmsOutcome, LoginError>)
    ensures
        if code_taken(resp@) {
            match session_for(resp@, text::opt_str_text(jar)) {
                Some(t) => r matches Ok(SmsOutcome::Accepted(id)) && id@ == outside::lower_case(
                    t,
                ),
                None => r == Err::<SmsOutcome, LoginError>(LoginError::NoTwfid),
            }
        } else {
            r matches Ok(SmsOutcome::Rejected(why)) && why@ == reason_of(
                outside::regex_group(CDATA_MESSAGE@, resp@),
                None,
                "验证码校验失败"@,
            )
        },
{
    let taken = text::has(resp, "<Result>1</Result>") || text::has(resp, "Auth sms suc");
    let stored = match jar {
        Some(j) => twfid_from_jar(j),
        None => None,
    };
    sms_verdict(taken, find(resp, TWFID_TAG), stored, find(resp, CDATA_MESSAGE))
}

// ---------------------------------------------------------------------------------------
// Laws

/// How many requests of a login have been made.
pub open spec fn requests_made(stage: LoginStage) -> int {
    match stage {
        LoginStage::Start => 0,
        LoginStage::Auth => 1,
        LoginStage::Config => 2,
        LoginStage::Password => 3,
        LoginStage::Sms => 4,
        LoginStage::Done => 5,
    }
}

/// A login moves on with every reply and ends after four requests at the latest; it ends at
/// once where a request fails.
pub proof fn law_login_moves_on(
    job: LoginJob,
    at: LoginStage,
    ev: LoginEvent,
    stage: LoginStage,
    action: LoginAction,
)
    requires
        login_step(job, at, ev, stage, action),
    ensures
        action is Wait ==> stage == at,
        action is Request ==> requests_made(stage) == requests_made(at) + 1 && stage
            != LoginStage::Done,
        action is Finish || action is Fail ==> stage == LoginStage::Done,
        at != LoginStage::Start && at != LoginStage::Done && ev is Failed ==> action is Fail,
{
}

/// The phone is asked for, and a login ends with an SMS, only after a reply that says that the
/// password was taken.
pub proof fn law_sms_only_after_the_password(
    job: LoginJob,
    at: LoginStage,
    ev: LoginEvent,
    stage: LoginStage,
    action: LoginAction,
)
    requires
        login_step(job, at, ev, stage, action),
    ensures
        stage == LoginStage::Sms && action is Request ==> at == LoginStage::Password && (ev matches
            LoginEvent::Body(b) && password_taken(b@)),
        action matches LoginAction::Finish(PwOutcome::SmsSent { .. }) ==> at == LoginStage::Sms,
        action matches LoginAction::Finish(PwOutcome::PasswordRejected(_)) ==> (at
            == LoginStage::Password && (ev matches LoginEvent::Body(b) && !password_taken(b@))),
{
}

// ---------------------------------------------------------------------------------------
// Laws of the requests

/// The options of a command line of `curl`, each with its value, and behind them the address. The
/// one option among ours that takes no value is passed over.
pub open spec fn curl_options(w: Seq<Word>) -> Seq<(Seq<char>, Word)>
    decreases w.len(),
{
    if w.len() <= 1 {
        seq![]
    } else if w[0] == Word::Text("-sS"@) {
        curl_options(w.skip(1))
    } else {
        match w[0] {
            Word::Text(name) => seq![(name, w[1])] + curl_options(w.skip(2)),
            Word::Path(_) => seq![],
        }
    }
}

/// The options of every request: it may take twenty seconds, it goes by the name of a browser, and
/// the cookies are read from and written to the jar.
pub open spec fn common_options(jar: Seq<u8>) -> Seq<(Seq<char>, Word)> {
    seq![
        ("--max-time"@, Word::Text("20"@)),
        (
            "-A"@,
            Word::Text(
                "Mozilla/5.0 (Macintosh; Intel Mac OS X 10_15_7) AppleWebKit/537.36 (KHTML, like Gecko) Chrome/150.0.0.0 Safari/537.36"@,
            ),
        ),
        ("-c"@, Word::Path(jar)),
        ("-b"@, Word::Path(jar)),
    ]
}

#[verifier::spinoff_prover]
#[verifier::rlimit(60)]
proof fn lemma_common_options(jar: Seq<u8>, rest: Seq<Word>)
    requires
        rest.len() >= 1,
    ensures
        (curl_head(jar) + rest)[0] == Word::Text("/usr/bin/curl"@),
        curl_options((curl_head(jar) + rest).skip(1)) == common_options(jar) + curl_options(rest),
{
    reveal_strlit("-sS");
    reveal_strlit("--max-time");
    reveal_strlit("-A");
    reveal_strlit("-c");
    reveal_strlit("-b");
    assert("-sS"@.len() == 3 && "--max-time"@.len() == 10 && "-A"@.len() == 2);
    assert("-c"@.len() == 2 && "-b"@.len() == 2);
    let w = (curl_head(jar) + rest).skip(1);
    let w1 = w.skip(1);
    let w2 = w1.skip(2);
    let w3 = w2.skip(2);
    let w4 = w3.skip(2);
    assert(w4.skip(2) =~= rest);
    assert(curl_options(w4) == seq![("-b"@, Word::Path(jar))] + curl_options(rest));
    assert(curl_options(w3) == seq![("-c"@, Word::Path(jar))] + curl_options(w4));
    assert(curl_options(w2) == seq![("-A"@, Word::Text(UA@))] + curl_options(w3));
    assert(curl_options(w1) == seq![("--max-time"@, Word::Text("20"@))] + curl_options(w2));
    assert(curl_options(w) == curl_options(w1));
    assert(curl_options(w) =~= common_options(jar) + curl_options(rest));
}

/// A GET request has the common options and no other, so that nothing is posted, and asks for the
/// page at the given place of the portal.
pub proof fn law_what_a_get_request_asks(base: Seq<char>, path: Seq<char>, jar: Seq<u8>)
    ensures
        ({
            let w = get_words(base, path, jar);
            &&& w[0] == Word::Text("/usr/bin/curl"@)
            &&& curl_options(w.skip(1)) == common_options(jar)
            &&& w.last() == Word::Text(base + path)
        }),
{
    let rest = seq![Word::Text(base + path)];
    lemma_common_options(jar, rest);
    assert(get_words(base, path, jar) =~= curl_head(jar) + rest);
    assert(common_options(jar) + curl_options(rest) =~= common_options(jar));
}

/// The options that post the fields of a form, each encoded by `curl`; an empty form is posted as
/// an empty body.
pub open spec fn form_options(fields: Seq<(Seq<char>, Seq<char>)>) -> Seq<(Seq<char>, Word)> {
    if fields.len() == 0 {
        seq![("-d"@, Word::Text(""@))]
    } else {
        Seq::new(
            fields.len(),
            |i: int| ("--data-urlencode"@, Word::Text(fields[i].0 + "="@ + fields[i].1)),
        )
    }
}

proof fn lemma_form_options(fields: Seq<(Seq<char>, Seq<char>)>, rest: Seq<Word>)
    requires
        rest.len() >= 1,
    ensures
        curl_options(words::plain(form_words(fields)) + rest) == Seq::new(
            fields.len(),
            |i: int| ("--data-urlencode"@, Word::Text(fields[i].0 + "="@ + fields[i].1)),
        ) + curl_options(rest),
        form_words(fields).len() == 2 * fields.len(),
    decreases fields.len(),
{
    reveal_strlit("-sS");
    reveal_strlit("--data-urlencode");
    assert("-sS"@.len() == 3 && "--data-urlencode"@.len() == 16);
    let made = Seq::new(
        fields.len(),
        |i: int| ("--data-urlencode"@, Word::Text(fields[i].0 + "="@ + fields[i].1)),
    );
    if fields.len() == 0 {
        assert(words::plain(form_words(fields)) + rest =~= rest);
        assert(made + curl_options(rest) =~= curl_options(rest));
    } else {
        let init = fields.drop_last();
        let value = Word::Text(fields.last().0 + "="@ + fields.last().1);
        let more = seq![Word::Text("--data-urlencode"@), value] + rest;
        lemma_form_options(init, more);
        assert(words::plain(form_words(fields)) + rest =~= words::plain(form_words(init)) + more);
        assert(more.skip(2) =~= rest);
        assert(curl_options(more) == seq![("--data-urlencode"@, value)] + curl_options(rest));
        let before = Seq::new(
            init.len(),
            |i: int| ("--data-urlencode"@, Word::Text(init[i].0 + "="@ + init[i].1)),
        );
        assert(made =~= before.push(("--data-urlencode"@, value)));
        assert(before + curl_options(more) =~= made + curl_options(rest));
    }
}

/// A POST request has, besides the common options, one for each field of its form and no other, in
/// their order, and goes to the page at the given place of the portal.
#[verifier::spinoff_prover]
#[verifier::rlimit(60)]
pub proof fn law_what_a_post_request_sends(
    base: Seq<char>,
    path: Seq<char>,
    fields: Seq<(Seq<char>, Seq<char>)>,
    jar: Seq<u8>,
)
    ensures
        ({
            let w = post_words(base, path, fields, jar);
            &&& w[0] == Word::Text("/usr/bin/curl"@)
            &&& curl_options(w.skip(1)) == common_options(jar) + form_options(fields)
            &&& w.last() == Word::Text(base + path)
        }),
{
    reveal_strlit("-sS");
    reveal_strlit("-d");
    assert("-sS"@.len() == 3 && "-d"@.len() == 2);
    let w = post_words(base, path, fields, jar);
    let end = seq![Word::Text(base + path)];
    let form = if fields.len() == 0 {
        seq!["-d"@, ""@]
    } else {
        form_words(fields)
    };
    let rest = words::plain(form) + end;
    assert(words::plain(form.push(base + path)) =~= rest);
    lemma_common_options(jar, rest);
    assert(w =~= curl_head(jar) + rest);
    if fields.len() == 0 {
        assert(rest.skip(2) =~= end);
        assert(curl_options(end) =~= Seq::<(Seq<char>, Word)>::empty());
        assert(curl_options(rest) =~= form_options(fields));
    } else {
        lemma_form_options(fields, end);
        assert(curl_options(end) =~= Seq::<(Seq<char>, Word)>::empty());
        assert(curl_options(rest) =~= form_options(fields));
    }
    assert(w.last() == rest.last());
}

/// A password goes to the portal's page for passwords, encrypted and guarded against being replayed,
/// in a form with five fields: the user's name, the encrypted password, the code against forged
/// requests, and two that are empty.
#[verifier::spinoff_prover]
#[verifier::rlimit(60)]
pub proof fn law_where_a_password_goes(job: LoginJob, csrf: Seq<char>, enc: Seq<char>)
    ensures
        ({
            let w = psw_words(job, csrf, enc);
            let options = curl_options(w.skip(1));
            let form = "--data-urlencode"@;
            &&& w.last() == Word::Text(
                "https://"@ + job.server@ + ":"@ + decimal::digits(job.port as nat)
                    + "/por/login_psw.csp?anti_replay=1&encrypt=1&apiversion=1"@,
            )
            &&& options.len() == 9
            &&& options.contains((form, Word::Text("svpn_name"@ + "="@ + job.username@)))
            &&& options.contains((form, Word::Text("svpn_password"@ + "="@ + enc)))
            &&& options.contains((form, Word::Text("svpn_req_randcode"@ + "="@ + csrf)))
            &&& options.contains((form, Word::Text("svpn_rand_code"@ + "="@ + ""@)))
            &&& options.contains((form, Word::Text("mitm"@ + "="@ + ""@)))
        }),
{
    let fields = seq![
        ("svpn_rand_code"@, ""@),
        ("mitm"@, ""@),
        ("svpn_req_randcode"@, csrf),
        ("svpn_name"@, job.username@),
        ("svpn_password"@, enc),
    ];
    let w = psw_words(job, csrf, enc);
    let page = "/por/login_psw.csp?anti_replay=1&encrypt=1&apiversion=1"@;
    law_what_a_post_request_sends(base_of(job.server@, job.port), page, fields, job.jar@);
    let options = curl_options(w.skip(1));
    assert(options == common_options(job.jar@) + form_options(fields));
    assert(options[4] == form_options(fields)[0]);
    assert(options[5] == form_options(fields)[1]);
    assert(options[6] == form_options(fields)[2]);
    assert(options[7] == form_options(fields)[3]);
    assert(options[8] == form_options(fields)[4]);
}

/// Each request of a login goes to its own page of the portal: the session is opened, the key asked
/// for, the password handed in, and the SMS asked for, in this order. The first two post nothing,
/// and the last posts an empty form.
pub proof fn law_pages_of_a_login(
    job: LoginJob,
    at: LoginStage,
    ev: LoginEvent,
    stage: LoginStage,
    w: Vec<Arg>,
)
    requires
        login_step(job, at, ev, stage, LoginAction::Request(w)),
    ensures
        words::words(w@)[0] == Word::Text("/usr/bin/curl"@),
        words::words(w@).last() == Word::Text(
            "https://"@ + job.server@ + ":"@ + decimal::digits(job.port as nat) + (match stage {
                LoginStage::Auth => "/por/login_auth.csp?apiversion=1"@,
                LoginStage::Config => "/public/psw_config?apiversion=1"@,
                LoginStage::Password => "/por/login_psw.csp?anti_replay=1&encrypt=1&apiversion=1"@,
                _ => "/por/login_sms.csp?apiversion=1"@,
            }),
        ),
        stage == LoginStage::Auth || stage == LoginStage::Config ==> curl_options(
            words::words(w@).skip(1),
        ) == common_options(job.jar@),
        stage == LoginStage::Sms ==> curl_options(words::words(w@).skip(1)) == common_options(
            job.jar@,
        ).push(("-d"@, Word::Text(""@))),
        match at {
            LoginStage::Start => stage == LoginStage::Auth,
            LoginStage::Auth => stage == LoginStage::Config,
            LoginStage::Config => stage == LoginStage::Password,
            LoginStage::Password => stage == LoginStage::Sms,
            _ => false,
        },
{
    let base = base_of(job.server@, job.port);
    law_what_a_get_request_asks(base, "/por/login_auth.csp?apiversion=1"@, job.jar@);
    law_what_a_get_request_asks(base, "/public/psw_config?apiversion=1"@, job.jar@);
    law_what_a_post_request_sends(base, "/por/login_sms.csp?apiversion=1"@, seq![], job.jar@);
    assert(common_options(job.jar@) + form_options(seq![]) =~= common_options(job.jar@).push(
        ("-d"@, Word::Text(""@)),
    ));
    if stage == LoginStage::Password {
        if let LoginEvent::Body(body) = ev {
            let key = outside::regex_group(RSA_KEY@, body@)->0;
            let exp = exponent_of(outside::regex_group(RSA_EXP@, body@)) as u64;
            let csrf = outside::regex_group(CSRF_CODE@, body@)->0;
            let enc = choose|enc: Seq<char>|
                encrypts(key, exp, secret_text(job.password@, csrf), enc) && words::words(w@)
                    == #[trigger] psw_words(job, csrf, enc);
            law_where_a_password_goes(job, csrf, enc);
            let page = "/por/login_psw.csp?anti_replay=1&encrypt=1&apiversion=1"@;
            let fields = seq![
                ("svpn_rand_code"@, ""@),
                ("mitm"@, ""@),
                ("svpn_req_randcode"@, csrf),
                ("svpn_name"@, job.username@),
                ("svpn_password"@, enc),
            ];
            law_what_a_post_request_sends(base, page, fields, job.jar@);
        }
    }
}

/// The request that hands the password in carries an encryption, with the key of the reply, of the
/// password and the code of the reply with an underscore between them.
pub proof fn law_what_is_encrypted(
    job: LoginJob,
    body: String,
    stage: LoginStage,
    w: Vec<Arg>,
)
    requires
        login_step(
            job,
            LoginStage::Config,
            LoginEvent::Body(body),
            stage,
            LoginAction::Request(w),
        ),
    ensures
        ({
            let key = outside::regex_group(
                r"<RSA_ENCRYPT_KEY>([0-9A-Fa-f]+)</RSA_ENCRYPT_KEY>"@,
                body@,
            );
            let csrf = outside::regex_group(r"<CSRF_RAND_CODE>(\d+)</CSRF_RAND_CODE>"@, body@);
            let exp = outside::regex_group(r"<RSA_ENCRYPT_EXP>(\d+)</RSA_ENCRYPT_EXP>"@, body@);
            &&& key is Some && csrf is Some
            &&& exists|enc: Seq<char>|
                encrypts(
                    key->0,
                    exponent_of(exp) as u64,
                    job.password@ + "_"@ + csrf->0,
                    enc,
                ) && #[trigger] curl_options(words::words(w@).skip(1)).contains(
                    ("--data-urlencode"@, Word::Text("svpn_password"@ + "="@ + enc)),
                )
            &&& curl_options(words::words(w@).skip(1)).contains(
                ("--data-urlencode"@, Word::Text("svpn_req_randcode"@ + "="@ + csrf->0)),
            )
            &&& curl_options(words::words(w@).skip(1)).contains(
                ("--data-urlencode"@, Word::Text("svpn_name"@ + "="@ + job.username@)),
            )
        }),
{
    let key = outside::regex_group(RSA_KEY@, body@)->0;
    let exp = exponent_of(outside::regex_group(RSA_EXP@, body@)) as u64;
    let csrf = outside::regex_group(CSRF_CODE@, body@)->0;
    let enc = choose|enc: Seq<char>|
        encrypts(key, exp, secret_text(job.password@, csrf), enc) && words::words(w@)
            == #[trigger] psw_words(job, csrf, enc);
    law_where_a_password_goes(job, csrf, enc);
    assert(curl_options(words::words(w@).skip(1)).contains(
        ("--data-urlencode"@, Word::Text("svpn_password"@ + "="@ + enc)),
    ));
}

proof fn lemma_hex_reads_back(b: Seq<u8>)
    ensures
        outside::is_hex(outside::hex_text(b)),
        outside::hex_bytes(outside::hex_text(b)) == b,
{
    let t = outside::hex_text(b);
    assert forall|i: int| 0 <= i < t.len() implies outside::hex_value(#[trigger] t[i]) == Some(
        outside::half_byte(b, i),
    ) by {
        assert(0 <= outside::half_byte(b, i) < 16);
    }
    assert forall|i: int| 0 <= i < b.len() implies outside::hex_bytes(t)[i] == b[i] by {
        assert(outside::hex_value(t[2 * i]) == Some(outside::half_byte(b, 2 * i)));
        assert(outside::hex_value(t[2 * i + 1]) == Some(outside::half_byte(b, 2 * i + 1)));
        assert((2 * i + 1) / 2 == i);
    }
    assert(outside::hex_bytes(t) =~= b);
}

/// What is handed in as the encrypted password is in hexadecimal digits, and read back from them it
/// is a ciphertext of the text for the key and the exponent, with at least eight bytes of padding.
pub proof fn law_an_encryption_reads_back(
    key_hex: Seq<char>,
    exp: u64,
    plaintext: Seq<char>,
    enc: Seq<char>,
)
    requires
        encrypts(key_hex, exp, plaintext, enc),
    ensures
        outside::is_hex(enc),
        exists|padding: Seq<u8>| #[trigger]
            outside::ciphertext(
                outside::hex_bytes(key_hex),
                exp,
                vstd::utf8::encode_utf8(plaintext),
                padding,
                outside::hex_bytes(enc),
            ) && padding.len() >= 8,
{
    let (padding, ct) = choose|padding: Seq<u8>, ct: Seq<u8>|
        outside::ciphertext(
            outside::hex_bytes(key_hex),
            exp,
            vstd::utf8::encode_utf8(plaintext),
            padding,
            ct,
        ) && enc == #[trigger] outside::hex_text(ct) && #[trigger] padding.len() >= 8;
    lemma_hex_reads_back(ct);
    assert(outside::ciphertext(
        outside::hex_bytes(key_hex),
        exp,
        vstd::utf8::encode_utf8(plaintext),
        padding,
        outside::hex_bytes(enc),
    ));
}

/// The exponent is the number that the reply spells; without one, or where it is none, 65537.
pub proof fn law_which_exponent_is_used(n: u64, found: Option<Seq<char>>)
    ensures
        exponent_of(Some(decimal::digits(n as nat))) == n,
        exponent_of(None) == 65537,
        found is Some && decimal::parse_unsigned(found->0, u64::MAX as int) is None
            ==> exponent_of(found) == 65537,
{
    decimal::lemma_parse_of_digits(n as nat, u64::MAX as int);
}

// ---------------------------------------------------------------------------------------
// Laws of the replies

/// How a login goes on with each reply. A request that fails ends it: as a failure to open the
/// session where it was the first, else as a failure of its own. The reply to the password ends it
/// with the portal's reason exactly where it does not say that the password was taken; the reply to
/// the last request ends it with the phone that it tells.
pub proof fn law_how_a_login_goes_on(
    job: LoginJob,
    at: LoginStage,
    ev: LoginEvent,
    stage: LoginStage,
    action: LoginAction,
)
    requires
        login_step(job, at, ev, stage, action),
    ensures
        at == LoginStage::Start ==> action is Request,
        at == LoginStage::Auth && ev is Failed ==> action == LoginAction::Fail(
            LoginError::Auth(ev->Failed_0),
        ),
        (at == LoginStage::Config || at == LoginStage::Password || at == LoginStage::Sms) && ev
            is Failed ==> action == LoginAction::Fail(LoginError::Request(ev->Failed_0)),
        at == LoginStage::Auth && ev is Body ==> action is Request,
        at == LoginStage::Config && ev is Body ==> action is Request || action is Fail,
        (at == LoginStage::Password && ev is Body) ==> (action is Request <==> text::contains(
            ev->Body_0@,
            "auth/sms"@,
        ) || text::contains(ev->Body_0@, "<Result>2</Result>"@)),
        (at == LoginStage::Password && ev is Body && !(action is Request)) ==> (action matches
            LoginAction::Finish(PwOutcome::PasswordRejected(m)) && m@ == password_refusal(
            ev->Body_0@,
        )),
        (at == LoginStage::Sms && ev is Body) ==> (action matches LoginAction::Finish(
            PwOutcome::SmsSent { phone },
        ) && phone@ == phone_in(ev->Body_0@)),
{
}

/// The reason for a refused password is what the portal says: in its marked form where that is
/// there, else in its plain form, else a general one.
pub proof fn law_which_reason_is_given(psw: Seq<char>)
    ensures
        ({
            let marked = outside::regex_group(
                r"<Message><!\[CDATA\[(.*?)\]\]></Message>"@,
                psw,
            );
            let plain = outside::regex_group(r"<Message>(.*?)</Message>"@, psw);
            &&& marked is Some ==> password_refusal(psw) == marked->0
            &&& marked is None && plain is Some ==> password_refusal(psw) == plain->0
            &&& marked is None && plain is None ==> password_refusal(psw) == "登录被拒"@
        }),
{
}

/// The phone that a reply tells is shown masked: the one in its notice goes before the one of the
/// user, in its marked form and then in its plain one; none is shown where none is told.
pub proof fn law_which_phone_is_shown(resp: Seq<char>)
    ensures
        ({
            let notice = outside::regex_group(r"<T_SMSINFOR>(.*?)</T_SMSINFOR>"@, resp);
            let noticed = match notice {
                Some(n) => outside::regex_group(r"([0-9][0-9*]{6,})"@, n),
                None => None,
            };
            let marked = outside::regex_group(
                r"<USER_PHONE><!\[CDATA\[(.*?)\]\]></USER_PHONE>"@,
                resp,
            );
            let plain = outside::regex_group(r"<USER_PHONE>(.*?)</USER_PHONE>"@, resp);
            &&& noticed is Some ==> phone_in(resp) == masked(noticed->0)
            &&& noticed is None && marked is Some ==> phone_in(resp) == masked(marked->0)
            &&& noticed is None && marked is None && plain is Some ==> phone_in(resp) == masked(
                plain->0,
            )
            &&& noticed is None && marked is None && plain is None ==> phone_in(resp).len() == 0
        }),
{
}

/// What is no mobile number, or is hidden in part already, is shown as it is, without the white
/// space around it. A mobile number is a one with ten digits behind it.
pub proof fn law_what_is_not_masked(s: Seq<char>, digits: Seq<char>)
    ensures
        !is_mobile(text::trim(s)) ==> masked(s) == text::trim(s),
        text::contains(text::trim(s), "*"@) ==> masked(s) == text::trim(s),
        digits.len() == 10 && text::all_digits(digits) ==> is_mobile(seq!['1'] + digits),
        is_mobile(s) ==> s.len() == 11 && s[0] == '1' && text::all_digits(s.skip(1)),
{
    let m = seq!['1'] + digits;
    if digits.len() == 10 && text::all_digits(digits) {
        assert forall|i: int| 0 <= i < m.len() implies text::is_digit(#[trigger] m[i]) by {
            if i > 0 {
                assert(text::is_digit(digits[i - 1]));
            }
        }
    }
    if is_mobile(s) {
        assert forall|i: int| 0 <= i < s.skip(1).len() implies text::is_digit(
            #[trigger] s.skip(1)[i],
        ) by {
            assert(text::is_digit(s[i + 1]));
        }
    }
}

/// A cookie is a line of seven fields between tabs; the session is the value of the first cookie
/// with its name. Lines before it that are no such cookie do not count, nor do those behind it.
pub proof fn law_the_first_session_counts(
    before: Seq<Seq<char>>,
    domain: Seq<Seq<char>>,
    value: Seq<char>,
    after: Seq<Seq<char>>,
)
    requires
        forall|i: int| 0 <= i < before.len() ==> !session_line(#[trigger] before[i]),
        domain.len() == 5,
        forall|i: int| 0 <= i < domain.len() ==> text::free_of(#[trigger] domain[i], '\t'),
        text::free_of(value, '\t'),
    ensures
        session_in(
            before + seq![text::join(domain + seq!["TWFID"@, value], seq!['\t'])] + after,
            0,
        ) == Some(value),
        session_in(before, 0) is None,
{
    reveal_strlit("TWFID");
    let parts = domain + seq!["TWFID"@, value];
    let line = text::join(parts, seq!['\t']);
    assert forall|i: int| 0 <= i < parts.len() implies text::free_of(#[trigger] parts[i], '\t') by {
        if i < domain.len() {
            assert(text::free_of(domain[i], '\t'));
        }
    }
    text::law_splitting_undoes_joining(parts, '\t');
    let all = before + seq![line] + after;
    assert forall|i: int| 0 <= i < before.len() implies !session_line(#[trigger] all[i]) by {
        assert(!session_line(before[i]));
    }
    lemma_session_from(all, before.len() as int, 0);
    lemma_session_from(before, before.len() as int, 0);
    assert(all[before.len() as int] == line);
}

proof fn lemma_session_from(lines: Seq<Seq<char>>, to: int, from: int)
    requires
        0 <= from <= to <= lines.len(),
        forall|i: int| from <= i < to ==> !session_line(#[trigger] lines[i]),
    ensures
        session_in(lines, from) == session_in(lines, to),
    decreases to - from,
{
    if from < to {
        lemma_session_from(lines, to, from + 1);
    }
}

/// A session comes from the reply, where it tells one, else from the cookie jar, where that could be
/// read. A code was taken exactly where the reply says so in one of two ways.
pub proof fn law_where_a_session_comes_from(resp: Seq<char>, jar: Option<Seq<char>>)
    ensures
        ({
            let told = outside::regex_group(r"<TwfID>([0-9a-fA-F]{16})</TwfID>"@, resp);
            &&& told is Some ==> session_for(resp, jar) == told
            &&& told is None && jar is Some ==> session_for(resp, jar) == session_in(
                text::lines(jar->0),
                0,
            )
            &&& told is None && jar is None ==> session_for(resp, jar) is None
        }),
        code_taken(resp) <==> text::contains(resp, "<Result>1</Result>"@) || text::contains(
            resp,
            "Auth sms suc"@,
        ),
{
}

/// A code is handed in at the portal's page for codes, without the white space around it, and
/// another SMS is asked for at the page for that, with an empty form.
pub proof fn law_where_codes_go(
    server: &str,
    port: u16,
    jar: &[u8],
    code: &str,
    handed_in: Vec<Arg>,
    asked: Vec<Arg>,
)
    requires
        call_ensures(submit_sms, (server, port, jar, code), handed_in),
        call_ensures(resend_sms, (server, port, jar), asked),
    ensures
        ({
            let base = "https://"@ + server@ + ":"@ + decimal::digits(port as nat);
            let a = words::words(handed_in@);
            let b = words::words(asked@);
            &&& a[0] == Word::Text("/usr/bin/curl"@) && b[0] == Word::Text("/usr/bin/curl"@)
            &&& a.last() == Word::Text(base + "/por/login_sms1.csp?apiversion=1"@)
            &&& b.last() == Word::Text(base + "/por/post_sms.csp?apiversion=1"@)
            &&& curl_options(a.skip(1)) == common_options(jar@).push(
                (
                    "--data-urlencode"@,
                    Word::Text("svpn_inputsms"@ + "="@ + text::trim(code@)),
                ),
            )
            &&& curl_options(b.skip(1)) == common_options(jar@).push(("-d"@, Word::Text(""@)))
        }),
{
    let base = base_of(server@, port);
    let fields = seq![("svpn_inputsms"@, text::trim(code@))];
    law_what_a_post_request_sends(base, "/por/login_sms1.csp?apiversion=1"@, fields, jar@);
    law_what_a_post_request_sends(base, "/por/post_sms.csp?apiversion=1"@, seq![], jar@);
    assert(common_options(jar@) + form_options(fields) =~= common_options(jar@).push(
        ("--data-urlencode"@, Word::Text("svpn_inputsms"@ + "="@ + text::trim(code@))),
    ));
    assert(common_options(jar@) + form_options(seq![]) =~= common_options(jar@).push(
        ("-d"@, Word::Text(""@)),
    ));
}

/// A code counts as accepted only where the reply says that it was taken, and then with the session
/// that there is, in lower case; without one that is an error. A code that was not taken is refused,
/// never an error.
pub proof fn law_what_comes_of_a_code(
    resp: &str,
    jar: Option<&str>,
    r: Result<SmsOutcome, LoginError>,
)
    requires
        call_ensures(sms_outcome, (resp, jar), r),
    ensures
        ({
            let session = session_for(resp@, text::opt_str_text(jar));
            &&& (r matches Ok(SmsOutcome::Accepted(_))) <==> code_taken(resp@) && session is Some
            &&& (r matches Ok(SmsOutcome::Accepted(id)) ==> id@ == outside::lower_case(session->0))
            &&& (r matches Ok(SmsOutcome::Rejected(_))) <==> !code_taken(resp@)
            &&& r is Err <==> code_taken(resp@) && session is None
        }),
{
}

/// A request brings its reply exactly where `curl` ran and succeeded.
pub proof fn law_when_a_request_succeeds(run: CurlRun, r: Result<String, CurlError>)
    requires
        call_ensures(run_curl, (run,), r),
    ensures
        r is Ok <==> (run matches CurlRun::Ended { success, .. } && success),
        r is Ok ==> r->Ok_0@ == run->stdout@,
        run is NotStarted <==> (r matches Err(CurlError::NotStarted(_))),
{
}

/// A line of a cookie jar holds a session exactly where it has seven fields between tabs, and the
/// sixth is the name of the session.
pub proof fn law_which_lines_hold_a_session(fields: Seq<Seq<char>>)
    requires
        fields.len() >= 1,
        forall|i: int| 0 <= i < fields.len() ==> text::free_of(#[trigger] fields[i], '\t'),
    ensures
        session_line(text::join(fields, seq!['\t'])) <==> fields.len() == 7 && fields[5]
            == "TWFID"@,
{
    text::law_splitting_undoes_joining(fields, '\t');
}

/// The reply to the key request leads to the password exactly where it tells a key and a code, the
/// key is made of hexadecimal digits, and it admits a text as long as the password and the code
/// with an underscore between them. What is missing first is the error.
pub proof fn law_when_the_password_is_handed_in(
    job: LoginJob,
    body: String,
    stage: LoginStage,
    action: LoginAction,
)
    requires
        login_step(job, LoginStage::Config, LoginEvent::Body(body), stage, action),
    ensures
        ({
            let key = outside::regex_group(
                r"<RSA_ENCRYPT_KEY>([0-9A-Fa-f]+)</RSA_ENCRYPT_KEY>"@,
                body@,
            );
            let csrf = outside::regex_group(r"<CSRF_RAND_CODE>(\d+)</CSRF_RAND_CODE>"@, body@);
            let exp = outside::regex_group(r"<RSA_ENCRYPT_EXP>(\d+)</RSA_ENCRYPT_EXP>"@, body@);
            let usable = outside::encryptable(
                outside::hex_bytes(key->0),
                exponent_of(exp) as u64,
                vstd::utf8::encode_utf8(job.password@ + "_"@ + csrf->0).len() as int,
            );
            &&& action is Request <==> key is Some && csrf is Some && outside::is_hex(key->0)
                && usable
            &&& action == LoginAction::Fail(LoginError::NoKey) <==> key is None
            &&& action == LoginAction::Fail(LoginError::NoCsrf) <==> key is Some && csrf is None
            &&& (action matches LoginAction::Fail(LoginError::Encrypt(RsaError::Hex(_)))) <==> key
                is Some && csrf is Some && !outside::is_hex(key->0)
            &&& (action matches LoginAction::Fail(LoginError::Encrypt(RsaError::Key(_)))) <==> key
                is Some && csrf is Some && outside::is_hex(key->0) && !usable
        }),
{
}

} // verus!
