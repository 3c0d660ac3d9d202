//! The password in the system's keychain, under the user's name.

use vstd::prelude::*;

use crate::text;
use crate::words;

verus! {

pub const SERVICE: &'static str = "easy-proxy";

/// How a call of the keychain's program went.
#[derive(Debug, PartialEq, Eq)]
pub enum SecurityRun {
    /// It could not be started, for this reason.
    NotStarted(String),
    Ended { success: bool, stdout: String, stderr: String },
}

/// Where a password comes from.
#[derive(Debug, PartialEq, Eq)]
pub enum PasswordSource {
    /// It is given.
    Given(String),
    /// The keychain is to be asked.
    Keychain,
}

/// Where the password comes from: one in the environment goes before the keychain, which is
/// then not asked.
pub fn password_source(environment: Option<String>) -> (r: PasswordSource)
    ensures
        match environment {
            Some(p) => r matches PasswordSource::Given(q) && q@ == p@,
            None => r == PasswordSource::Keychain,
        },
{
    match environment {
        Some(p) => PasswordSource::Given(p),
        None => PasswordSource::Keychain,
    }
}

/// The command line that reads a password.
pub fn get_password_args(account: &str) -> (r: Vec<String>)
    ensures
        text::texts(r@) == seq![
            "/usr/bin/security"@,
            "find-generic-password"@,
            "-s"@,
            SERVICE@,
            "-a"@,
            account@,
            "-w"@,
        ],
{
    let r: Vec<String> = vec![
        "/usr/bin/security".to_owned(),
        "find-generic-password".to_owned(),
        "-s".to_owned(),
        SERVICE.to_owned(),
        "-a".to_owned(),
        account.to_owned(),
        "-w".to_owned(),
    ];
    assert(text::texts(r@) =~= seq![
        "/usr/bin/security"@,
        "find-generic-password"@,
        "-s"@,
        SERVICE@,
        "-a"@,
        account@,
        "-w"@,
    ]);
    r
}

/// The password that was read: what was printed, without the line feeds at its end. None where
/// there is none, or where it is empty.
pub fn get_password(run: &SecurityRun) -> (r: Option<String>)
    ensures
        match *run {
            SecurityRun::NotStarted(_) => r is None,
            SecurityRun::Ended { success, stdout, .. } => {
                let p = text::trim_end_char(stdout@, '\n');
                text::opt_text(r) == (if success && p.len() > 0 {
                    Some(p)
                } else {
                    None
                })
            },
        },
{
    match run {
        SecurityRun::NotStarted(_) => None,
        SecurityRun::Ended { success, stdout, .. } => {
            if !*success {
                return None;
            }
            let p = text::trimmed_end_char(stdout, '\n');
            if p.as_str().is_empty() {
                None
            } else {
                Some(p)
            }
        },
    }
}

/// The command line that stores a password, in place of one that is there.
pub fn set_password_args(account: &str, password: &str) -> (r: Vec<String>)
    ensures
        text::texts(r@) == seq![
            "/usr/bin/security"@,
            "add-generic-password"@,
            "-s"@,
            SERVICE@,
            "-a"@,
            account@,
            "-w"@,
            password@,
            "-U"@,
        ],
{
    let r: Vec<String> = vec![
        "/usr/bin/security".to_owned(),
        "add-generic-password".to_owned(),
        "-s".to_owned(),
        SERVICE.to_owned(),
        "-a".to_owned(),
        account.to_owned(),
        "-w".to_owned(),
        password.to_owned(),
        "-U".to_owned(),
    ];
    assert(text::texts(r@) =~= seq![
        "/usr/bin/security"@,
        "add-generic-password"@,
        "-s"@,
        SERVICE@,
        "-a"@,
        account@,
        "-w"@,
        password@,
        "-U"@,
    ]);
    r
}

/// Whether a password was stored, and the message where it was not.
pub fn set_password(run: &SecurityRun) -> (r: Result<(), String>)
    ensures
        match *run {
            SecurityRun::NotStarted(e) => r matches Err(m) && m@
                == "无法执行 security add-generic-password: "@ + e@,
            SecurityRun::Ended { success, stderr, .. } => if success {
                r is Ok
            } else {
                r matches Err(m) && m@ == "写入钥匙串失败: "@ + text::trim(stderr@)
            },
        },
{
    match run {
        SecurityRun::NotStarted(e) => {
            let mut m = "无法执行 security add-generic-password: ".to_owned();
            m.append(e);
            Err(m)
        },
        SecurityRun::Ended { success, stderr, .. } => {
            if *success {
                Ok(())
            } else {
                let mut m = "写入钥匙串失败: ".to_owned();
                m.append(&text::trimmed(stderr));
                Err(m)
            }
        },
    }
}

/// The command line that removes a password.
pub fn delete_password(account: &str) -> (r: Vec<String>)
    ensures
        text::texts(r@) == seq![
            "/usr/bin/security"@,
            "delete-generic-password"@,
            "-s"@,
            SERVICE@,
            "-a"@,
            account@,
        ],
{
    let r: Vec<String> = vec![
        "/usr/bin/security".to_owned(),
        "delete-generic-password".to_owned(),
        "-s".to_owned(),
        SERVICE.to_owned(),
        "-a".to_owned(),
        account.to_owned(),
    ];
    assert(text::texts(r@) =~= seq![
        "/usr/bin/security"@,
        "delete-generic-password"@,
        "-s"@,
        SERVICE@,
        "-a"@,
        account@,
    ]);
    r
}

/// A password is looked for, and removed, where it was stored: under the same service and the same
/// account. What is stored there is the password itself, in place of one that is there.
#[verifier::spinoff_prover]
#[verifier::rlimit(60)]
pub proof fn law_passwords_are_found_where_they_were_stored(
    account: &str,
    password: &str,
    stored: Vec<String>,
    looked_up: Vec<String>,
    removed: Vec<String>,
)
    requires
        call_ensures(set_password_args, (account, password), stored),
        call_ensures(get_password_args, (account,), looked_up),
        call_ensures(delete_password, (account,), removed),
    ensures
        ({
            let set = text::texts(stored@);
            let get = text::texts(looked_up@);
            let del = text::texts(removed@);
            &&& set[0] == "/usr/bin/security"@ && set[1] == "add-generic-password"@
            &&& get[0] == "/usr/bin/security"@ && get[1] == "find-generic-password"@
            &&& del[0] == "/usr/bin/security"@ && del[1] == "delete-generic-password"@
            &&& words::option_value(set.skip(2), seq!["-U"@], "-s"@) == Some("easy-proxy"@)
            &&& words::option_value(get.skip(2), seq!["-w"@], "-s"@) == Some("easy-proxy"@)
            &&& words::option_value(del.skip(2), seq![], "-s"@) == Some("easy-proxy"@)
            &&& words::option_value(set.skip(2), seq!["-U"@], "-a"@) == Some(account@)
            &&& words::option_value(get.skip(2), seq!["-w"@], "-a"@) == Some(account@)
            &&& words::option_value(del.skip(2), seq![], "-a"@) == Some(account@)
            &&& words::option_value(set.skip(2), seq!["-U"@], "-w"@) == Some(password@)
            &&& words::option_named(set.skip(2), seq!["-U"@], "-U"@)
            &&& words::option_named(get.skip(2), seq!["-w"@], "-w"@)
        }),
{
    reveal_strlit("-s");
    reveal_strlit("-a");
    reveal_strlit("-w");
    reveal_strlit("-U");
    assert("-s"@[1] != "-a"@[1] && "-s"@[1] != "-w"@[1] && "-s"@[1] != "-U"@[1]);
    assert("-a"@[1] != "-w"@[1] && "-a"@[1] != "-U"@[1] && "-w"@[1] != "-U"@[1]);
    let set = text::texts(stored@).skip(2);
    let get = text::texts(looked_up@).skip(2);
    let del = text::texts(removed@).skip(2);
    let end = Seq::<Seq<char>>::empty();
    let u = seq!["-U"@];
    let w = seq!["-w"@];
    assert(u[0] == "-U"@ && w[0] == "-w"@);
    let s3 = seq!["-U"@] + end;
    let s2 = seq!["-w"@, password@] + s3;
    let s1 = seq!["-a"@, account@] + s2;
    assert(set =~= seq!["-s"@, SERVICE@] + s1);
    words::lemma_option_alone(s3, "-U"@, end, u);
    words::lemma_option_with_value(s2, "-w"@, password@, s3, u);
    words::lemma_option_with_value(s1, "-a"@, account@, s2, u);
    words::lemma_option_with_value(set, "-s"@, SERVICE@, s1, u);
    let g2 = seq!["-w"@] + end;
    let g1 = seq!["-a"@, account@] + g2;
    assert(get =~= seq!["-s"@, SERVICE@] + g1);
    words::lemma_option_alone(g2, "-w"@, end, w);
    words::lemma_option_with_value(g1, "-a"@, account@, g2, w);
    words::lemma_option_with_value(get, "-s"@, SERVICE@, g1, w);
    let d1 = seq!["-a"@, account@] + end;
    assert(del =~= seq!["-s"@, SERVICE@] + d1);
    words::lemma_option_with_value(d1, "-a"@, account@, end, end);
    words::lemma_option_with_value(del, "-s"@, SERVICE@, d1, end);
}

/// What was printed for a stored password is that password, however many line feeds stand behind
/// it; a password that is not there, and an empty one, count as none.
pub proof fn law_a_stored_password_is_read_back(password: Seq<char>, run: &SecurityRun, r: Option<String>)
    requires
        call_ensures(get_password, (run,), r),
        password.len() > 0,
        password.last() != '\n',
    ensures
        match *run {
            SecurityRun::Ended { success, stdout, .. } => {
                &&& success && stdout@ == password + "\n"@ ==> text::opt_text(r) == Some(password)
                &&& !success || stdout@ == "\n"@ || stdout@.len() == 0 ==> r is None
            },
            SecurityRun::NotStarted(_) => r is None,
        },
{
    reveal_strlit("\n");
    let t = password + "\n"@;
    assert(t.drop_last() =~= password);
    assert(text::trim_end_char(t, '\n') == text::trim_end_char(password, '\n'));
    assert("\n"@.drop_last() =~= Seq::<char>::empty());
    assert(text::trim_end_char("\n"@, '\n') == text::trim_end_char(
        Seq::<char>::empty(),
        '\n',
    ));
}

} // verus!
