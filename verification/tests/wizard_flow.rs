use forumrs::flow::check_login;
use forumrs::flow::login_view;
use forumrs::flow::startup;
use forumrs::flow::submit_account_creation;
use forumrs::flow::submit_finished;
use forumrs::flow::submit_general;
use forumrs::flow::submit_login;
use forumrs::flow::submit_migrate;
use forumrs::flow::submit_security;
use forumrs::flow::view_stage;
use forumrs::flow::AuthAccountCreation;
use forumrs::flow::AuthGeneralForm;
use forumrs::flow::AuthLoginData;
use forumrs::flow::AuthSecurityForm;
use forumrs::flow::CookieAction;
use forumrs::flow::SessionCheck;
use forumrs::flow::StartupOutcome;
use forumrs::flow::WizardReply;
use forumrs::session::AuthError;
use forumrs::session::SessionState;
use forumrs::settings::BaseSettings;
use forumrs::settings::DatabaseType;
use forumrs::settings::SettingsError;
use forumrs::settings::SettingsManager;
use forumrs::stage::guard;
use forumrs::stage::Decision;
use forumrs::stage::SetupStage;

fn authed_state(token: u128) -> (SessionState, String) {
    let state = SessionState { setup_code: 1, session: Some(token) };
    let cookie = uuid::Uuid::from_u128(token).to_string();
    (state, cookie)
}

fn assert_plain_redirect(r: &WizardReply, loc: &str) {
    match r {
        WizardReply::Redirect { location, cookie } => {
            assert_eq!(location, loc);
            assert!(matches!(cookie, CookieAction::Keep));
        }
        _ => panic!("expected a redirect to {}", loc),
    }
}

// Scenario: fresh boot with no configuration file creates the default
// record in setup mode at the General stage.
#[test]
fn fresh_boot_creates_default_record() {
    match startup(false, None) {
        StartupOutcome::FirstBoot(s) => {
            assert!(s.new_setup);
            assert_eq!(s.setup_stage, Some(SetupStage::General));
            assert_eq!(s.name, "UnInitalized");
            assert_eq!(s.domain, "forumrs.example.com");
            assert_eq!(s.ip, "127.0.0.1");
            assert_eq!(s.port, 8080);
            assert!(matches!(s.database_type, DatabaseType::SQLite));
            assert!(s.sql_settings.is_none());
        }
        _ => panic!("expected a first boot"),
    }
}

#[test]
fn startup_rejects_undecodable_file() {
    match startup(true, None) {
        StartupOutcome::Fatal(e) => assert_eq!(e, SettingsError::Unreadable),
        _ => panic!("expected a fatal outcome"),
    }
}

#[test]
fn startup_rejects_stage_invariant_violation() {
    let mut s = BaseSettings::create_default();
    s.new_setup = false; // stage still recorded: the invariant is violated
    match startup(true, Some(s)) {
        StartupOutcome::Fatal(e) => assert_eq!(e, SettingsError::StageInvariant),
        _ => panic!("expected a fatal outcome"),
    }
}

#[test]
fn startup_accepts_valid_record() {
    let s = BaseSettings::create_default();
    match startup(true, Some(s)) {
        StartupOutcome::Loaded(l) => assert_eq!(l.setup_stage, Some(SetupStage::General)),
        _ => panic!("expected the record to load"),
    }
}

#[test]
fn validate_requires_dialect_section_once_committed() {
    let mut s = BaseSettings::create_default();
    s.new_setup = false;
    s.setup_stage = None;
    // dialect is SQLite but no SQLite section exists
    assert_eq!(
        SettingsManager::validate_settings(&s),
        Err(SettingsError::MissingSqliteSection)
    );
    s.database_type = DatabaseType::MySQL;
    assert_eq!(
        SettingsManager::validate_settings(&s),
        Err(SettingsError::MissingMysqlSection)
    );
    s.database_type = DatabaseType::PostgreSQL;
    assert_eq!(
        SettingsManager::validate_settings(&s),
        Err(SettingsError::MissingPostgresSection)
    );
}

#[test]
fn validate_requires_flagged_sections_once_committed() {
    let mut s = BaseSettings::create_default();
    s.new_setup = false;
    s.setup_stage = None;
    s.sql_settings = Some(forumrs::settings::SqlSettings {
        file_location: String::from("forum.db"),
    });
    s.use_sll = true;
    assert_eq!(
        SettingsManager::validate_settings(&s),
        Err(SettingsError::MissingSslSection)
    );
    s.ssl_settings = Some(forumrs::settings::SSLSettings {
        private_key: String::from("k.pem"),
        public_key: String::from("p.pem"),
    });
    s.use_captcha = true;
    assert_eq!(
        SettingsManager::validate_settings(&s),
        Err(SettingsError::MissingCaptchaSection)
    );
    s.captcha_settings = Some(forumrs::settings::CaptchaSettings {
        site_key: String::from("s"),
        secret_key: String::from("k"),
    });
    assert_eq!(SettingsManager::validate_settings(&s), Ok(()));
}

#[test]
fn validate_error_messages() {
    assert_eq!(
        SettingsError::StageInvariant.message(),
        "Invalid setup stage. Something has went wrong during the setup process!"
    );
    assert_eq!(
        SettingsError::MissingSslSection.message(),
        "SSL is marked as being used, but there are no SSL settings present."
    );
}

// Guard idempotence on concrete values: asking for the persisted stage
// always proceeds.
#[test]
fn guard_proceeds_on_matching_stage() {
    for s in [
        SetupStage::General,
        SetupStage::Security,
        SetupStage::Storage,
        SetupStage::ExistingStorage,
        SetupStage::AccountCreation,
        SetupStage::Finished,
    ] {
        assert_eq!(guard(true, s, Some(s)), Decision::Proceed);
        assert_eq!(guard(true, s, Some(s)), Decision::Proceed);
    }
}

#[test]
fn guard_redirects_to_persisted_stage() {
    assert_eq!(
        guard(true, SetupStage::General, Some(SetupStage::Storage)),
        Decision::RedirectTo(SetupStage::Storage)
    );
    assert_eq!(guard(false, SetupStage::General, Some(SetupStage::General)), Decision::Reject);
    assert_eq!(guard(true, SetupStage::General, None), Decision::Reject);
}

// Session singleton: of two authentication attempts with the correct code,
// exactly one is granted.
#[test]
fn second_authentication_observes_already_authenticated() {
    let mut state = SessionState { setup_code: 99, session: None };
    let first = state.authenticate(99);
    let granted = first.expect("the first attempt must be granted");
    assert_eq!(state.session, Some(granted));
    let second = state.authenticate(99);
    assert_eq!(second, Err(AuthError::AlreadyAuthenticated));
    assert_eq!(state.session, Some(granted));
}

#[test]
fn wrong_code_is_invalid_token() {
    let mut state = SessionState { setup_code: 99, session: None };
    assert_eq!(state.authenticate(98), Err(AuthError::InvalidToken));
    assert!(state.session.is_none());
}

#[test]
fn verify_accepts_only_the_granted_token() {
    let mut state = SessionState { setup_code: 5, session: None };
    let t = state.authenticate(5).unwrap();
    assert!(state.verify(t));
    assert!(!state.verify(t.wrapping_add(1)));
}

#[test]
fn login_grants_session_and_sets_cookie() {
    let code: u128 = 0x1234_5678_9abc_def0_1122_3344_5566_7788;
    let mut state = SessionState { setup_code: code, session: None };
    let form = AuthLoginData { login_code: uuid::Uuid::from_u128(code).to_string() };
    let r = submit_login(&mut state, &form, Some(SetupStage::General));
    match r {
        WizardReply::Redirect { location, cookie } => {
            assert_eq!(location, "/general");
            match cookie {
                CookieAction::SetSession(cs) => {
                    assert_eq!(cs.len(), 36);
                    let granted = uuid::Uuid::parse_str(&cs).unwrap().as_u128();
                    assert_eq!(state.session, Some(granted));
                }
                _ => panic!("expected the session cookie to be set"),
            }
        }
        _ => panic!("expected a redirect to the persisted stage"),
    }
}

#[test]
fn login_with_wrong_code_redirects_with_code_one() {
    let mut state = SessionState { setup_code: 7, session: None };
    let form = AuthLoginData { login_code: uuid::Uuid::from_u128(8).to_string() };
    let r = submit_login(&mut state, &form, Some(SetupStage::General));
    assert_plain_redirect(&r, "/login?err=1");
    assert!(state.session.is_none());
}

#[test]
fn login_with_malformed_code_redirects_with_code_one() {
    let mut state = SessionState { setup_code: 7, session: None };
    let form = AuthLoginData { login_code: String::from("not-a-code") };
    let r = submit_login(&mut state, &form, Some(SetupStage::General));
    assert_plain_redirect(&r, "/login?err=1");
}

#[test]
fn check_login_clears_bad_cookie() {
    let (state, cookie) = authed_state(11);
    assert_eq!(check_login(&state, Some(cookie.as_str())), SessionCheck::Authenticated);
    assert_eq!(
        check_login(&state, Some("garbage")),
        SessionCheck::ToLogin { clear_cookie: true }
    );
    let other = uuid::Uuid::from_u128(12).to_string();
    assert_eq!(
        check_login(&state, Some(other.as_str())),
        SessionCheck::ToLogin { clear_cookie: true }
    );
    assert_eq!(check_login(&state, None), SessionCheck::ToLogin { clear_cookie: false });
    // with no session granted yet, any presented credential is stale and
    // is cleared on the way to the login page
    let empty = SessionState { setup_code: 1, session: None };
    assert_eq!(
        check_login(&empty, Some(cookie.as_str())),
        SessionCheck::ToLogin { clear_cookie: true }
    );
    assert_eq!(
        check_login(&empty, Some("garbage")),
        SessionCheck::ToLogin { clear_cookie: true }
    );
    assert_eq!(check_login(&empty, None), SessionCheck::ToLogin { clear_cookie: false });
}

#[test]
fn login_view_returns_to_current_stage() {
    let (state, cookie) = authed_state(21);
    let r = login_view(&state, Some(cookie.as_str()), Some(SetupStage::Security));
    assert_plain_redirect(&r, "/security");
    match login_view(&state, None, Some(SetupStage::Security)) {
        WizardReply::RenderLogin { session_error, clear_cookie } => {
            assert!(session_error);
            assert!(!clear_cookie);
        }
        _ => panic!("expected the login page"),
    }
}

#[test]
fn view_renders_only_the_current_stage() {
    let (state, cookie) = authed_state(31);
    let r = view_stage(&state, Some(cookie.as_str()), SetupStage::General, Some(SetupStage::General));
    assert!(matches!(r, WizardReply::Render(SetupStage::General)));
    let r2 = view_stage(&state, Some(cookie.as_str()), SetupStage::General, Some(SetupStage::Storage));
    assert_plain_redirect(&r2, "/storage");
    let r3 = view_stage(&state, None, SetupStage::General, Some(SetupStage::General));
    assert_plain_redirect(&r3, "/login");
}

fn general_form(name: &str, ip: &str, port: &str, domain: &str) -> AuthGeneralForm {
    AuthGeneralForm {
        name: String::from(name),
        ip: String::from(ip),
        port: String::from(port),
        domain: String::from(domain),
    }
}

// Scenario: a malformed bind address redirects back with error code 2 and
// leaves the record unchanged.
#[test]
fn general_rejects_malformed_address() {
    let (state, cookie) = authed_state(41);
    let mut settings = BaseSettings::create_default();
    let form = general_form("My Forum", "999.1.1.1", "8080", "example.com");
    let r = submit_general(&state, Some(cookie.as_str()), &mut settings, &form);
    assert_plain_redirect(&r, "/general?err=2");
    assert_eq!(settings.name, "UnInitalized");
    assert_eq!(settings.ip, "127.0.0.1");
    assert_eq!(settings.setup_stage, Some(SetupStage::General));
}

#[test]
fn general_error_codes() {
    let (state, cookie) = authed_state(42);
    let mut settings = BaseSettings::create_default();
    let r1 = submit_general(&state, Some(cookie.as_str()), &mut settings, &general_form("", "1.2.3.4", "80", "d"));
    assert_plain_redirect(&r1, "/general?err=1");
    let r2 = submit_general(&state, Some(cookie.as_str()), &mut settings, &general_form("n", "", "80", "d"));
    assert_plain_redirect(&r2, "/general?err=2");
    let r3 = submit_general(&state, Some(cookie.as_str()), &mut settings, &general_form("n", "1.2.3.4", "eighty", "d"));
    assert_plain_redirect(&r3, "/general?err=3");
    let r4 = submit_general(&state, Some(cookie.as_str()), &mut settings, &general_form("n", "1.2.3.4", "70000", "d"));
    assert_plain_redirect(&r4, "/general?err=3");
    let r5 = submit_general(&state, Some(cookie.as_str()), &mut settings, &general_form("n", "1.2.3.4", "0", "d"));
    assert_plain_redirect(&r5, "/general?err=3");
    let r6 = submit_general(&state, Some(cookie.as_str()), &mut settings, &general_form("n", "1.2.3.4", "80", ""));
    assert_plain_redirect(&r6, "/general?err=4");
    // leading zeros are not accepted in an octet
    let r7 = submit_general(&state, Some(cookie.as_str()), &mut settings, &general_form("n", "01.2.3.4", "80", "d"));
    assert_plain_redirect(&r7, "/general?err=2");
    assert_eq!(settings.setup_stage, Some(SetupStage::General));
}

#[test]
fn general_accepts_valid_input_and_advances() {
    let (state, cookie) = authed_state(43);
    let mut settings = BaseSettings::create_default();
    let form = general_form("My Forum", "192.168.0.254", "8443", "forum.example.org");
    let r = submit_general(&state, Some(cookie.as_str()), &mut settings, &form);
    assert_plain_redirect(&r, "/security");
    assert_eq!(settings.name, "My Forum");
    assert_eq!(settings.ip, "192.168.0.254");
    assert_eq!(settings.port, 8443);
    assert_eq!(settings.domain, "forum.example.org");
    assert_eq!(settings.setup_stage, Some(SetupStage::Security));
}

#[test]
fn general_requires_the_general_stage() {
    let (state, cookie) = authed_state(44);
    let mut settings = BaseSettings::create_default();
    settings.setup_stage = Some(SetupStage::Storage);
    let form = general_form("n", "1.2.3.4", "80", "d");
    let r = submit_general(&state, Some(cookie.as_str()), &mut settings, &form);
    assert_plain_redirect(&r, "/storage");
    assert_eq!(settings.name, "UnInitalized");
}

fn empty_security_form() -> AuthSecurityForm {
    AuthSecurityForm {
        useSSL: None,
        privateKey: None,
        publicKey: None,
        useCaptch: None,
        siteKey: None,
        secretKey: None,
    }
}

#[test]
fn security_without_options_advances_to_storage() {
    let (state, cookie) = authed_state(51);
    let mut settings = BaseSettings::create_default();
    settings.setup_stage = Some(SetupStage::Security);
    let r = submit_security(&state, Some(cookie.as_str()), &mut settings, &empty_security_form(), false, false);
    assert_plain_redirect(&r, "/storage");
    assert!(!settings.use_sll);
    assert!(!settings.use_captcha);
    assert_eq!(settings.setup_stage, Some(SetupStage::Storage));
}

#[test]
fn security_error_codes() {
    let (state, cookie) = authed_state(52);
    let mut settings = BaseSettings::create_default();
    settings.setup_stage = Some(SetupStage::Security);
    let mut f = empty_security_form();
    f.useSSL = Some(String::from("on"));
    let r1 = submit_security(&state, Some(cookie.as_str()), &mut settings, &f, true, true);
    assert_plain_redirect(&r1, "/security?err=1");
    f.privateKey = Some(String::from("server.key"));
    f.publicKey = Some(String::from("server.pem"));
    let r2 = submit_security(&state, Some(cookie.as_str()), &mut settings, &f, true, true);
    assert_plain_redirect(&r2, "/security?err=2");
    f.privateKey = Some(String::from("server.pem"));
    f.publicKey = Some(String::from("server.crt"));
    let r3 = submit_security(&state, Some(cookie.as_str()), &mut settings, &f, true, true);
    assert_plain_redirect(&r3, "/security?err=3");
    f.publicKey = Some(String::from("public.ASN1"));
    let r4 = submit_security(&state, Some(cookie.as_str()), &mut settings, &f, false, true);
    assert_plain_redirect(&r4, "/security?err=4");
    let r5 = submit_security(&state, Some(cookie.as_str()), &mut settings, &f, true, false);
    assert_plain_redirect(&r5, "/security?err=5");
    let mut g = empty_security_form();
    g.useCaptch = Some(String::from("on"));
    let r6 = submit_security(&state, Some(cookie.as_str()), &mut settings, &g, false, false);
    assert_plain_redirect(&r6, "/security?err=6");
    g.siteKey = Some(String::from("short"));
    g.secretKey = Some(String::from("0123456789012345678901234567890123456789"));
    let r7 = submit_security(&state, Some(cookie.as_str()), &mut settings, &g, false, false);
    assert_plain_redirect(&r7, "/security?err=7");
    assert_eq!(settings.setup_stage, Some(SetupStage::Security));
    assert!(!settings.use_sll);
}

#[test]
fn security_stores_requested_sections() {
    let (state, cookie) = authed_state(53);
    let mut settings = BaseSettings::create_default();
    settings.setup_stage = Some(SetupStage::Security);
    let f = AuthSecurityForm {
        useSSL: Some(String::from("on")),
        privateKey: Some(String::from("/etc/keys/private.pem")),
        publicKey: Some(String::from("/etc/keys/public.asn1")),
        useCaptch: Some(String::from("on")),
        siteKey: Some(String::from("0123456789012345678901234567890123456789")),
        secretKey: Some(String::from("abcdefghijabcdefghijabcdefghijabcdefghij")),
    };
    let r = submit_security(&state, Some(cookie.as_str()), &mut settings, &f, true, true);
    assert_plain_redirect(&r, "/storage");
    assert!(settings.use_sll);
    assert_eq!(settings.ssl_settings.as_ref().unwrap().private_key, "/etc/keys/private.pem");
    assert_eq!(settings.ssl_settings.as_ref().unwrap().public_key, "/etc/keys/public.asn1");
    assert!(settings.use_captcha);
    assert_eq!(
        settings.captcha_settings.as_ref().unwrap().site_key,
        "0123456789012345678901234567890123456789"
    );
    assert_eq!(settings.setup_stage, Some(SetupStage::Storage));
}

#[test]
fn migrate_advances_to_finished() {
    let (state, cookie) = authed_state(61);
    let mut settings = BaseSettings::create_default();
    settings.setup_stage = Some(SetupStage::ExistingStorage);
    let r = submit_migrate(&state, Some(cookie.as_str()), &mut settings);
    assert_plain_redirect(&r, "/finished");
    assert_eq!(settings.setup_stage, Some(SetupStage::Finished));
}

#[test]
fn account_creation_validates_and_advances() {
    let (state, cookie) = authed_state(71);
    let mut settings = BaseSettings::create_default();
    settings.setup_stage = Some(SetupStage::AccountCreation);
    let bad = AuthAccountCreation {
        username: String::from("admin"),
        email: String::from("a@b.c"),
        password: String::from("secret"),
        confirmPassword: String::from("other"),
    };
    let (r1, a1) = submit_account_creation(&state, Some(cookie.as_str()), &mut settings, &bad);
    assert_plain_redirect(&r1, "/accountcreation?err=4");
    assert!(a1.is_none());
    assert_eq!(settings.setup_stage, Some(SetupStage::AccountCreation));
    let good = AuthAccountCreation {
        username: String::from("admin"),
        email: String::from("a@b.c"),
        password: String::from("secret"),
        confirmPassword: String::from("secret"),
    };
    let (r2, a2) = submit_account_creation(&state, Some(cookie.as_str()), &mut settings, &good);
    assert_plain_redirect(&r2, "/finished");
    let account = a2.expect("a valid form yields the account to insert");
    assert_eq!(account.username, "admin");
    assert_eq!(account.email, "a@b.c");
    assert_eq!(account.password, "secret");
    assert_eq!(settings.setup_stage, Some(SetupStage::Finished));
}

#[test]
fn account_creation_empty_field_codes() {
    let (state, cookie) = authed_state(72);
    let mut settings = BaseSettings::create_default();
    settings.setup_stage = Some(SetupStage::AccountCreation);
    let f = |u: &str, e: &str, p: &str| AuthAccountCreation {
        username: String::from(u),
        email: String::from(e),
        password: String::from(p),
        confirmPassword: String::from(p),
    };
    let (r1, _) = submit_account_creation(&state, Some(cookie.as_str()), &mut settings, &f("", "e", "p"));
    assert_plain_redirect(&r1, "/accountcreation?err=1");
    let (r2, _) = submit_account_creation(&state, Some(cookie.as_str()), &mut settings, &f("u", "", "p"));
    assert_plain_redirect(&r2, "/accountcreation?err=2");
    let (r3, _) = submit_account_creation(&state, Some(cookie.as_str()), &mut settings, &f("u", "e", ""));
    assert_plain_redirect(&r3, "/accountcreation?err=3");
}

// Scenario: the terminal commit marks setup done, drops the stage and tells
// the host to stop the process.
#[test]
fn finished_commits_and_terminates() {
    let (state, cookie) = authed_state(81);
    let mut settings = BaseSettings::create_default();
    settings.sql_settings = Some(forumrs::settings::SqlSettings {
        file_location: String::from("forum.db"),
    });
    settings.setup_stage = Some(SetupStage::Finished);
    let r = submit_finished(&state, Some(cookie.as_str()), &mut settings);
    assert!(matches!(r, WizardReply::Terminate));
    assert!(!settings.new_setup);
    assert!(settings.setup_stage.is_none());
    assert_eq!(SettingsManager::validate_settings(&settings), Ok(()));
}

// Stage monotonicity on a concrete run: a full pass through the wizard only
// ever moves the stage forward.
#[test]
fn full_run_advances_stages_in_order() {
    let (state, cookie) = authed_state(91);
    let mut settings = BaseSettings::create_default();
    let order = |s: &BaseSettings| match s.setup_stage {
        Some(SetupStage::General) => 0,
        Some(SetupStage::Security) => 1,
        Some(SetupStage::Storage) => 2,
        Some(SetupStage::ExistingStorage) => 3,
        Some(SetupStage::AccountCreation) => 4,
        Some(SetupStage::Finished) => 5,
        None => 6,
    };
    let mut last = order(&settings);
    submit_general(
        &state,
        Some(cookie.as_str()),
        &mut settings,
        &general_form("n", "10.0.0.1", "80", "d"),
    );
    assert!(order(&settings) > last);
    last = order(&settings);
    submit_security(&state, Some(cookie.as_str()), &mut settings, &empty_security_form(), false, false);
    assert!(order(&settings) > last);
    last = order(&settings);
    let storage_form = forumrs::flow::AuthStorageForm {
        dbType: DatabaseType::SQLite,
        sqlName: Some(String::from("forum.db")),
        mysqlURL: None,
        mysqlPort: None,
        mysqlUsername: None,
        mysqlPassword: None,
        mysqlDbName: None,
        postURL: None,
        postPort: None,
        postUsername: None,
        postPassword: None,
        postDbName: None,
    };
    forumrs::flow::apply_storage(
        &mut settings,
        &storage_form,
        &forumrs::provision::ProbeResult::File { exists: false },
    );
    assert!(order(&settings) > last);
    last = order(&settings);
    let good = AuthAccountCreation {
        username: String::from("admin"),
        email: String::from("a@b.c"),
        password: String::from("pw"),
        confirmPassword: String::from("pw"),
    };
    submit_account_creation(&state, Some(cookie.as_str()), &mut settings, &good);
    assert!(order(&settings) > last);
    last = order(&settings);
    submit_finished(&state, Some(cookie.as_str()), &mut settings);
    assert!(order(&settings) > last);
    assert!(settings.setup_stage.is_none());
}
