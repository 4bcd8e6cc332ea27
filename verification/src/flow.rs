//! The wizard flow controller: every request passes the session check, then
//! the stage guard, then stage-specific validation that mutates the
//! configuration record and advances the stage. Malformed input is always
//! recovered locally as a redirect carrying a stage-local numeric error
//! code; it never mutates the record.

use vstd::prelude::*;

use crate::session::parse_token;
use crate::session::token_to_string;
use crate::session::uuid_parse;
use crate::session::uuid_text;
use crate::session::SessionState;
use crate::provision::mysql_probe_url;
use crate::provision::mysql_schema_query;
use crate::provision::postgres_database_query;
use crate::provision::postgres_probe_url;
use crate::provision::spec_mysql_probe_url;
use crate::provision::spec_postgres_probe_url;
use crate::provision::ProbeResult;
use crate::settings::BaseSettings;
use crate::settings::CaptchaSettings;
use crate::settings::MysqlSettings;
use crate::settings::PostgreSQLSettings;
use crate::settings::SqlSettings;
use crate::settings::SSLSettings;
use crate::settings::SettingsError;
use crate::settings::spec_validate;
use crate::settings::DatabaseType;
use crate::stage::guard;
use crate::stage::spec_guard;
use crate::stage::stage_step_ok;
use crate::stage::Decision;
use crate::stage::SetupStage;
use crate::text::all_digits;
use crate::text::dec_value;
use crate::text::is_dotted_quad;
use crate::text::check_dotted_quad;
use crate::text::parse_u32;
use crate::text::check_key_file_name;
use crate::text::check_sqlite_file_name;
use crate::text::is_key_file_name;
use crate::text::is_sqlite_file_name;
use crate::text::str_eq;

verus! {

/// The form data for the login authorization.
pub struct AuthLoginData {
    pub login_code: String,
}

/// The form data for the general settings.
pub struct AuthGeneralForm {
    pub name: String,
    pub ip: String,
    pub port: String,
    pub domain: String,
}

/// How a reply treats the client's session cookie.
pub enum CookieAction {
    /// Leave the client's cookie as it is.
    Keep,
    /// Set the session cookie to the given token text.
    SetSession(String),
    /// Clear a credential the client holds but that cannot be valid.
    Clear,
}

/// What a wizard request tells the host to send back.
pub enum WizardReply {
    /// Render the page of the given stage for the current record.
    Render(SetupStage),
    /// Render the login page; `session_error` flags a lost-cookie state and
    /// `clear_cookie` removes a stale client credential.
    RenderLogin { session_error: bool, clear_cookie: bool },
    /// Redirect to the location, adjusting the cookie as stated.
    Redirect { location: String, cookie: CookieAction },
    /// Setup is committed: persist the record and stop the process, which
    /// is restarted into normal operation.
    Terminate,
}

/// The view of an optional cookie value.
pub open spec fn opt_str_view(c: Option<&str>) -> Option<Seq<char>> {
    match c {
        Some(s) => Some(s@),
        None => None,
    }
}

/// The cookie action a login redirect carries: clear a bad credential, or
/// leave the client untouched.
pub open spec fn clear_or_keep(c: CookieAction, clear: bool) -> bool {
    if clear {
        c is Clear
    } else {
        c is Keep
    }
}

/// The reply sends the caller to the login page, clearing the cookie
/// exactly when asked to.
pub open spec fn is_login_redirect(r: WizardReply, clear: bool) -> bool {
    r matches WizardReply::Redirect { location, cookie } && location@ == "/login"@
        && clear_or_keep(cookie, clear)
}

/// The reply is a plain redirect to the location, leaving the cookie alone.
pub open spec fn is_plain_redirect(r: WizardReply, loc: Seq<char>) -> bool {
    r matches WizardReply::Redirect { location, cookie } && location@ == loc && cookie is Keep
}

/// Whether a request may pass the session check, and if not, whether the
/// client's cookie must be cleared on the way to the login page.
#[derive(Clone, Copy, Debug, PartialEq, Eq, Structural)]
pub enum SessionCheck {
    /// The cookie is the granted session's token.
    Authenticated,
    /// Not logged in: send to the login page; clear the cookie when one was
    /// presented but cannot be valid.
    ToLogin { clear_cookie: bool },
}

/// What the session check decides, as a function of the state and cookie.
/// A failed check instructs the caller to clear whatever credential the
/// client presented: with no active session any cookie is stale, and with
/// one active a cookie that does not parse or does not match cannot be
/// valid.
pub open spec fn spec_check_login(state: SessionState, cookie: Option<Seq<char>>) -> SessionCheck {
    if state.session is None {
        SessionCheck::ToLogin { clear_cookie: cookie is Some }
    } else {
        match cookie {
            None => SessionCheck::ToLogin { clear_cookie: false },
            Some(c) => match uuid_parse(c) {
                None => SessionCheck::ToLogin { clear_cookie: true },
                Some(t) => if state.spec_verify(t) {
                    SessionCheck::Authenticated
                } else {
                    SessionCheck::ToLogin { clear_cookie: true }
                },
            },
        }
    }
}

/// Check whether the request's session cookie belongs to the granted
/// session. Any mismatch or absence means "not logged in", never an error:
/// the caller goes to the login page, and any credential the client still
/// holds but that cannot be valid is cleared on the way.
pub fn check_login(state: &SessionState, cookie: Option<&str>) -> (r: SessionCheck)
    ensures
        r == spec_check_login(*state, opt_str_view(cookie)),
{
    if state.session.is_none() {
        return SessionCheck::ToLogin { clear_cookie: cookie.is_some() };
    }
    match cookie {
        None => SessionCheck::ToLogin { clear_cookie: false },
        Some(c) => match parse_token(c) {
            None => SessionCheck::ToLogin { clear_cookie: true },
            Some(t) => {
                if state.verify(t) {
                    SessionCheck::Authenticated
                } else {
                    SessionCheck::ToLogin { clear_cookie: true }
                }
            },
        },
    }
}

/// The reply that sends an unauthenticated caller to the login page.
fn login_redirect(clear_cookie: bool) -> (r: WizardReply)
    ensures
        is_login_redirect(r, clear_cookie),
{
    WizardReply::Redirect {
        location: String::from_str("/login"),
        cookie: if clear_cookie {
            CookieAction::Clear
        } else {
            CookieAction::Keep
        },
    }
}

/// Serve a wizard page: the session check first, then the stage guard.
/// Only a request for the true current stage renders; any other
/// authenticated request bounces to the current stage's page, and a
/// finished setup (no persisted stage) rejects to the login page.
pub fn view_stage(
    state: &SessionState,
    cookie: Option<&str>,
    requested: SetupStage,
    persisted: Option<SetupStage>,
) -> (r: WizardReply)
    ensures
        ({
            let chk = spec_check_login(*state, opt_str_view(cookie));
            &&& (chk matches SessionCheck::ToLogin { clear_cookie } ==> is_login_redirect(
                r,
                clear_cookie,
            ))
            &&& (chk == SessionCheck::Authenticated ==> match spec_guard(
                true,
                requested,
                persisted,
            ) {
                Decision::Proceed => r == WizardReply::Render(requested),
                Decision::RedirectTo(p) => is_plain_redirect(r, p.path_spec()),
                Decision::Reject => is_login_redirect(r, false),
            })
        }),
{
    match check_login(state, cookie) {
        SessionCheck::ToLogin { clear_cookie } => login_redirect(clear_cookie),
        SessionCheck::Authenticated => {
            match guard(true, requested, persisted) {
                Decision::Proceed => WizardReply::Render(requested),
                Decision::RedirectTo(p) => WizardReply::Redirect {
                    location: p.path(),
                    cookie: CookieAction::Keep,
                },
                Decision::Reject => login_redirect(false),
            }
        },
    }
}

/// Serve the login page. With a session already granted, a caller that
/// presents its token is taken straight to the current stage; a missing
/// cookie is flagged as a session error, and a cookie that cannot be valid
/// is cleared.
pub fn login_view(
    state: &SessionState,
    cookie: Option<&str>,
    persisted: Option<SetupStage>,
) -> (r: WizardReply)
    ensures
        state.session is None ==> (r matches WizardReply::RenderLogin {
            session_error,
            clear_cookie,
        } && session_error == false && clear_cookie == (cookie is Some)),
        state.session matches Some(t) ==> match opt_str_view(cookie) {
            None => r == (WizardReply::RenderLogin { session_error: true, clear_cookie: false }),
            Some(c) => {
                if uuid_parse(c) == Some(t) {
                    match persisted {
                        Some(p) => is_plain_redirect(r, p.path_spec()),
                        None => r == (WizardReply::RenderLogin {
                            session_error: false,
                            clear_cookie: false,
                        }),
                    }
                } else {
                    r == (WizardReply::RenderLogin { session_error: false, clear_cookie: true })
                }
            },
        },
{
    if state.session.is_some() {
        match cookie {
            None => {
                return WizardReply::RenderLogin { session_error: true, clear_cookie: false };
            },
            Some(c) => {
                match parse_token(c) {
                    Some(t) => {
                        if state.verify(t) {
                            return match persisted {
                                Some(p) => WizardReply::Redirect {
                                    location: p.path(),
                                    cookie: CookieAction::Keep,
                                },
                                None => WizardReply::RenderLogin {
                                    session_error: false,
                                    clear_cookie: false,
                                },
                            };
                        }
                    },
                    None => {},
                }
                return WizardReply::RenderLogin { session_error: false, clear_cookie: true };
            },
        }
    }
    WizardReply::RenderLogin { session_error: false, clear_cookie: cookie.is_some() }
}

/// Log in to the setup process. With a session already active the caller is
/// sent back to the login page (error code 1 means a wrong or malformed
/// code); presenting the setup code grants the one session and redirects to
/// the persisted stage with the session cookie set.
pub fn submit_login(
    state: &mut SessionState,
    form: &AuthLoginData,
    persisted: Option<SetupStage>,
) -> (r: WizardReply)
    requires
        persisted is Some,
    ensures
        old(state).session is Some ==> (*final(state) == *old(state) && is_plain_redirect(
            r,
            "/login"@,
        )),
        old(state).session is None ==> match uuid_parse(form.login_code@) {
            None => *final(state) == *old(state) && is_plain_redirect(r, "/login?err=1"@),
            Some(v) => if v == old(state).setup_code {
                &&& final(state).setup_code == old(state).setup_code
                &&& final(state).session is Some
                &&& (r matches WizardReply::Redirect { location, cookie } && location@
                    == persisted->0.path_spec() && (cookie matches CookieAction::SetSession(cs)
                    && cs@ == uuid_text(final(state).session->0) && uuid_parse(cs@) == Some(
                    final(state).session->0,
                )))
            } else {
                *final(state) == *old(state) && is_plain_redirect(r, "/login?err=1"@)
            },
        },
{
    if state.session.is_some() {
        return WizardReply::Redirect {
            location: String::from_str("/login"),
            cookie: CookieAction::Keep,
        };
    }
    match parse_token(form.login_code.as_str()) {
        None => WizardReply::Redirect {
            location: String::from_str("/login?err=1"),
            cookie: CookieAction::Keep,
        },
        Some(v) => {
            match state.authenticate(v) {
                Ok(t) => {
                    let cs = token_to_string(t);
                    let loc = match persisted {
                        Some(p) => p.path(),
                        None => String::from_str("/login"),
                    };
                    WizardReply::Redirect { location: loc, cookie: CookieAction::SetSession(cs) }
                },
                Err(_) => WizardReply::Redirect {
                    location: String::from_str("/login?err=1"),
                    cookie: CookieAction::Keep,
                },
            }
        },
    }
}

/// The numbered errors of the general stage: 1 the site name is empty, 2
/// the bind address is empty or not a dotted quad, 3 the port is not a
/// number in 1..=65535, 4 the domain is empty.
pub open spec fn general_error(f: AuthGeneralForm) -> Option<int> {
    if f.name@.len() == 0 {
        Some(1int)
    } else if f.ip@.len() == 0 {
        Some(2int)
    } else if f.domain@.len() == 0 {
        Some(4int)
    } else if !is_dotted_quad(f.ip@) {
        Some(2int)
    } else if !(f.port@.len() > 0 && all_digits(f.port@) && dec_value(f.port@) <= u32::MAX) {
        Some(3int)
    } else if dec_value(f.port@) > 65535 || dec_value(f.port@) < 1 {
        Some(3int)
    } else {
        None
    }
}

/// The redirect location for a general-stage error code.
pub open spec fn general_err_path(e: int) -> Seq<char> {
    if e == 1 {
        "/general?err=1"@
    } else if e == 2 {
        "/general?err=2"@
    } else if e == 3 {
        "/general?err=3"@
    } else {
        "/general?err=4"@
    }
}

/// Submit the general settings: site name, bind address, port and domain.
/// Requires the session and the General stage; malformed input redirects
/// back with its error code and leaves the record unchanged; valid input
/// stores the four fields and advances the stage to Security.
pub fn submit_general(
    state: &SessionState,
    cookie: Option<&str>,
    settings: &mut BaseSettings,
    form: &AuthGeneralForm,
) -> (r: WizardReply)
    ensures
        stage_step_ok(old(settings).setup_stage, final(settings).setup_stage),
        ({
            let chk = spec_check_login(*state, opt_str_view(cookie));
            &&& (chk matches SessionCheck::ToLogin { clear_cookie } ==> (*final(settings) == *old(
                settings,
            ) && is_login_redirect(r, clear_cookie)))
            &&& (chk == SessionCheck::Authenticated ==> match spec_guard(
                true,
                SetupStage::General,
                old(settings).setup_stage,
            ) {
                Decision::RedirectTo(p) => *final(settings) == *old(settings) && is_plain_redirect(
                    r,
                    p.path_spec(),
                ),
                Decision::Reject => *final(settings) == *old(settings) && is_login_redirect(
                    r,
                    false,
                ),
                Decision::Proceed => match general_error(*form) {
                    Some(e) => *final(settings) == *old(settings) && is_plain_redirect(
                        r,
                        general_err_path(e),
                    ),
                    None => {
                        &&& final(settings).name@ == form.name@
                        &&& final(settings).ip@ == form.ip@
                        &&& final(settings).domain@ == form.domain@
                        &&& final(settings).port == dec_value(form.port@)
                        &&& final(settings).setup_stage == Some(SetupStage::Security)
                        &&& final(settings).database_type == old(settings).database_type
                        &&& final(settings).use_sll == old(settings).use_sll
                        &&& final(settings).use_captcha == old(settings).use_captcha
                        &&& final(settings).new_setup == old(settings).new_setup
                        &&& final(settings).mysql_settings == old(settings).mysql_settings
                        &&& final(settings).sql_settings == old(settings).sql_settings
                        &&& final(settings).postgre_settings == old(settings).postgre_settings
                        &&& final(settings).ssl_settings == old(settings).ssl_settings
                        &&& final(settings).captcha_settings == old(settings).captcha_settings
                        &&& is_plain_redirect(r, "/security"@)
                    },
                },
            })
        }),
{
    match check_login(state, cookie) {
        SessionCheck::ToLogin { clear_cookie } => {
            return login_redirect(clear_cookie);
        },
        SessionCheck::Authenticated => {},
    }
    match guard(true, SetupStage::General, settings.setup_stage) {
        Decision::RedirectTo(p) => {
            return WizardReply::Redirect { location: p.path(), cookie: CookieAction::Keep };
        },
        Decision::Reject => {
            return login_redirect(false);
        },
        Decision::Proceed => {},
    }
    if form.name.as_str().unicode_len() == 0 {
        return WizardReply::Redirect {
            location: String::from_str("/general?err=1"),
            cookie: CookieAction::Keep,
        };
    }
    if form.ip.as_str().unicode_len() == 0 {
        return WizardReply::Redirect {
            location: String::from_str("/general?err=2"),
            cookie: CookieAction::Keep,
        };
    }
    if form.domain.as_str().unicode_len() == 0 {
        return WizardReply::Redirect {
            location: String::from_str("/general?err=4"),
            cookie: CookieAction::Keep,
        };
    }
    if !check_dotted_quad(form.ip.as_str()) {
        return WizardReply::Redirect {
            location: String::from_str("/general?err=2"),
            cookie: CookieAction::Keep,
        };
    }
    let port_num = match parse_u32(form.port.as_str()) {
        None => {
            return WizardReply::Redirect {
                location: String::from_str("/general?err=3"),
                cookie: CookieAction::Keep,
            };
        },
        Some(v) => v,
    };
    if port_num > 65535 || port_num < 1 {
        return WizardReply::Redirect {
            location: String::from_str("/general?err=3"),
            cookie: CookieAction::Keep,
        };
    }
    settings.name = form.name.clone();
    settings.ip = form.ip.clone();
    settings.port = port_num;
    settings.domain = form.domain.clone();
    settings.setup_stage = Some(SetupStage::Security);
    WizardReply::Redirect { location: String::from_str("/security"), cookie: CookieAction::Keep }
}

/// The form data for the security settings. The checkboxes arrive as the
/// literal text `on` when ticked.
#[allow(non_snake_case)]
pub struct AuthSecurityForm {
    pub useSSL: Option<String>,
    pub privateKey: Option<String>,
    pub publicKey: Option<String>,
    pub useCaptch: Option<String>,
    pub siteKey: Option<String>,
    pub secretKey: Option<String>,
}

/// The form requested TLS: its checkbox holds the literal `on`.
pub open spec fn ssl_requested(f: AuthSecurityForm) -> bool {
    f.useSSL matches Some(v) && v@ == "on"@
}

/// The form requested the captcha: its checkbox holds the literal `on`.
pub open spec fn captcha_requested(f: AuthSecurityForm) -> bool {
    f.useCaptch matches Some(v) && v@ == "on"@
}

/// The numbered errors of the security stage: 1 a requested key path is
/// missing, 2 the private key or 3 the public key is not an accepted key
/// file name, 4 the private key or 5 the public key does not exist on disk,
/// 6 a requested captcha key is missing, 7 a captcha key is not exactly 40
/// characters.
pub open spec fn security_error(
    f: AuthSecurityForm,
    private_key_exists: bool,
    public_key_exists: bool,
) -> Option<int> {
    if ssl_requested(f) && (f.privateKey is None || f.publicKey is None) {
        Some(1int)
    } else if ssl_requested(f) && !is_key_file_name(f.privateKey->0@) {
        Some(2int)
    } else if ssl_requested(f) && !is_key_file_name(f.publicKey->0@) {
        Some(3int)
    } else if ssl_requested(f) && !private_key_exists {
        Some(4int)
    } else if ssl_requested(f) && !public_key_exists {
        Some(5int)
    } else if captcha_requested(f) && (f.siteKey is None || f.secretKey is None) {
        Some(6int)
    } else if captcha_requested(f) && (f.siteKey->0@.len() != 40 || f.secretKey->0@.len() != 40) {
        Some(7int)
    } else {
        None
    }
}

/// The redirect location for a security-stage error code.
pub open spec fn security_err_path(e: int) -> Seq<char> {
    if e == 1 {
        "/security?err=1"@
    } else if e == 2 {
        "/security?err=2"@
    } else if e == 3 {
        "/security?err=3"@
    } else if e == 4 {
        "/security?err=4"@
    } else if e == 5 {
        "/security?err=5"@
    } else if e == 6 {
        "/security?err=6"@
    } else {
        "/security?err=7"@
    }
}

/// Submit the security settings. If TLS is requested, both key paths must
/// be accepted key file names and exist on the filesystem (the host hands
/// in the two existence checks); if the captcha is requested, both keys
/// must be exactly 40 characters. Any failure leaves the record unchanged
/// and redirects back with a distinguishing error code; success stores the
/// requested sections and advances the stage to Storage.
pub fn submit_security(
    state: &SessionState,
    cookie: Option<&str>,
    settings: &mut BaseSettings,
    form: &AuthSecurityForm,
    private_key_exists: bool,
    public_key_exists: bool,
) -> (r: WizardReply)
    ensures
        stage_step_ok(old(settings).setup_stage, final(settings).setup_stage),
        ({
            let chk = spec_check_login(*state, opt_str_view(cookie));
            &&& (chk matches SessionCheck::ToLogin { clear_cookie } ==> (*final(settings) == *old(
                settings,
            ) && is_login_redirect(r, clear_cookie)))
            &&& (chk == SessionCheck::Authenticated ==> match spec_guard(
                true,
                SetupStage::Security,
                old(settings).setup_stage,
            ) {
                Decision::RedirectTo(p) => *final(settings) == *old(settings) && is_plain_redirect(
                    r,
                    p.path_spec(),
                ),
                Decision::Reject => *final(settings) == *old(settings) && is_login_redirect(
                    r,
                    false,
                ),
                Decision::Proceed => match security_error(
                    *form,
                    private_key_exists,
                    public_key_exists,
                ) {
                    Some(e) => *final(settings) == *old(settings) && is_plain_redirect(
                        r,
                        security_err_path(e),
                    ),
                    None => {
                        &&& final(settings).use_sll == ssl_requested(*form)
                        &&& (ssl_requested(*form) ==> (final(settings).ssl_settings matches Some(
                            ss,
                        ) && ss.private_key@ == form.privateKey->0@ && ss.public_key@
                            == form.publicKey->0@))
                        &&& (!ssl_requested(*form) ==> final(settings).ssl_settings == old(
                            settings,
                        ).ssl_settings)
                        &&& final(settings).use_captcha == captcha_requested(*form)
                        &&& (captcha_requested(*form)
                            ==> (final(settings).captcha_settings matches Some(cc) && cc.site_key@
                            == form.siteKey->0@ && cc.secret_key@ == form.secretKey->0@))
                        &&& (!captcha_requested(*form) ==> final(settings).captcha_settings == old(
                            settings,
                        ).captcha_settings)
                        &&& final(settings).setup_stage == Some(SetupStage::Storage)
                        &&& final(settings).name == old(settings).name
                        &&& final(settings).domain == old(settings).domain
                        &&& final(settings).ip == old(settings).ip
                        &&& final(settings).port == old(settings).port
                        &&& final(settings).database_type == old(settings).database_type
                        &&& final(settings).new_setup == old(settings).new_setup
                        &&& final(settings).mysql_settings == old(settings).mysql_settings
                        &&& final(settings).sql_settings == old(settings).sql_settings
                        &&& final(settings).postgre_settings == old(settings).postgre_settings
                        &&& is_plain_redirect(r, "/storage"@)
                    },
                },
            })
        }),
{
    match check_login(state, cookie) {
        SessionCheck::ToLogin { clear_cookie } => {
            return login_redirect(clear_cookie);
        },
        SessionCheck::Authenticated => {},
    }
    match guard(true, SetupStage::Security, settings.setup_stage) {
        Decision::RedirectTo(p) => {
            return WizardReply::Redirect { location: p.path(), cookie: CookieAction::Keep };
        },
        Decision::Reject => {
            return login_redirect(false);
        },
        Decision::Proceed => {},
    }
    let ssl_on = match &form.useSSL {
        Some(v) => str_eq(v.as_str(), "on"),
        None => false,
    };
    if ssl_on {
        match (&form.privateKey, &form.publicKey) {
            (Some(private_key), Some(public_key)) => {
                if !check_key_file_name(private_key.as_str()) {
                    return WizardReply::Redirect {
                        location: String::from_str("/security?err=2"),
                        cookie: CookieAction::Keep,
                    };
                }
                if !check_key_file_name(public_key.as_str()) {
                    return WizardReply::Redirect {
                        location: String::from_str("/security?err=3"),
                        cookie: CookieAction::Keep,
                    };
                }
                if !private_key_exists {
                    return WizardReply::Redirect {
                        location: String::from_str("/security?err=4"),
                        cookie: CookieAction::Keep,
                    };
                }
                if !public_key_exists {
                    return WizardReply::Redirect {
                        location: String::from_str("/security?err=5"),
                        cookie: CookieAction::Keep,
                    };
                }
            },
            _ => {
                return WizardReply::Redirect {
                    location: String::from_str("/security?err=1"),
                    cookie: CookieAction::Keep,
                };
            },
        }
    }
    let captcha_on = match &form.useCaptch {
        Some(v) => str_eq(v.as_str(), "on"),
        None => false,
    };
    if captcha_on {
        match (&form.siteKey, &form.secretKey) {
            (Some(site_key), Some(secret_key)) => {
                if site_key.as_str().unicode_len() != 40 || secret_key.as_str().unicode_len()
                    != 40 {
                    return WizardReply::Redirect {
                        location: String::from_str("/security?err=7"),
                        cookie: CookieAction::Keep,
                    };
                }
            },
            _ => {
                return WizardReply::Redirect {
                    location: String::from_str("/security?err=6"),
                    cookie: CookieAction::Keep,
                };
            },
        }
    }
    if ssl_on {
        match (&form.privateKey, &form.publicKey) {
            (Some(private_key), Some(public_key)) => {
                settings.use_sll = true;
                settings.ssl_settings = Some(
                    SSLSettings {
                        private_key: private_key.clone(),
                        public_key: public_key.clone(),
                    },
                );
            },
            _ => {},
        }
    } else {
        settings.use_sll = false;
    }
    if captcha_on {
        match (&form.siteKey, &form.secretKey) {
            (Some(site_key), Some(secret_key)) => {
                settings.use_captcha = true;
                settings.captcha_settings = Some(
                    CaptchaSettings { site_key: site_key.clone(), secret_key: secret_key.clone() },
                );
            },
            _ => {},
        }
    } else {
        settings.use_captcha = false;
    }
    settings.setup_stage = Some(SetupStage::Storage);
    WizardReply::Redirect { location: String::from_str("/storage"), cookie: CookieAction::Keep }
}

/// Choose to keep the existing data: the wizard skips account creation and
/// advances straight to Finished. Requires the session and the
/// ExistingStorage stage.
pub fn submit_migrate(
    state: &SessionState,
    cookie: Option<&str>,
    settings: &mut BaseSettings,
) -> (r: WizardReply)
    ensures
        stage_step_ok(old(settings).setup_stage, final(settings).setup_stage),
        ({
            let chk = spec_check_login(*state, opt_str_view(cookie));
            &&& (chk matches SessionCheck::ToLogin { clear_cookie } ==> (*final(settings) == *old(
                settings,
            ) && is_login_redirect(r, clear_cookie)))
            &&& (chk == SessionCheck::Authenticated ==> match spec_guard(
                true,
                SetupStage::ExistingStorage,
                old(settings).setup_stage,
            ) {
                Decision::RedirectTo(p) => *final(settings) == *old(settings) && is_plain_redirect(
                    r,
                    p.path_spec(),
                ),
                Decision::Reject => *final(settings) == *old(settings) && is_login_redirect(
                    r,
                    false,
                ),
                Decision::Proceed => {
                    &&& *final(settings) == (BaseSettings {
                        setup_stage: Some(SetupStage::Finished),
                        ..*old(settings)
                    })
                    &&& is_plain_redirect(r, "/finished"@)
                },
            })
        }),
{
    match check_login(state, cookie) {
        SessionCheck::ToLogin { clear_cookie } => {
            return login_redirect(clear_cookie);
        },
        SessionCheck::Authenticated => {},
    }
    match guard(true, SetupStage::ExistingStorage, settings.setup_stage) {
        Decision::RedirectTo(p) => {
            return WizardReply::Redirect { location: p.path(), cookie: CookieAction::Keep };
        },
        Decision::Reject => {
            return login_redirect(false);
        },
        Decision::Proceed => {},
    }
    settings.setup_stage = Some(SetupStage::Finished);
    WizardReply::Redirect { location: String::from_str("/finished"), cookie: CookieAction::Keep }
}

/// The terminal commit: mark setup as done, drop the recorded stage, and
/// tell the host to persist the record and stop the process, which is
/// restarted into normal operation. Requires the session and the Finished
/// stage. The committed record is well formed exactly when every section
/// its flags require was filled in along the way.
pub fn submit_finished(
    state: &SessionState,
    cookie: Option<&str>,
    settings: &mut BaseSettings,
) -> (r: WizardReply)
    ensures
        stage_step_ok(old(settings).setup_stage, final(settings).setup_stage),
        ({
            let chk = spec_check_login(*state, opt_str_view(cookie));
            &&& (chk matches SessionCheck::ToLogin { clear_cookie } ==> (*final(settings) == *old(
                settings,
            ) && is_login_redirect(r, clear_cookie)))
            &&& (chk == SessionCheck::Authenticated ==> match spec_guard(
                true,
                SetupStage::Finished,
                old(settings).setup_stage,
            ) {
                Decision::RedirectTo(p) => *final(settings) == *old(settings) && is_plain_redirect(
                    r,
                    p.path_spec(),
                ),
                Decision::Reject => *final(settings) == *old(settings) && is_login_redirect(
                    r,
                    false,
                ),
                Decision::Proceed => {
                    &&& *final(settings) == (BaseSettings {
                        new_setup: false,
                        setup_stage: None,
                        ..*old(settings)
                    })
                    &&& final(settings).stage_invariant()
                    &&& (final(settings).wf() <==> old(settings).sections_complete())
                    &&& r == WizardReply::Terminate
                },
            })
        }),
{
    match check_login(state, cookie) {
        SessionCheck::ToLogin { clear_cookie } => {
            return login_redirect(clear_cookie);
        },
        SessionCheck::Authenticated => {},
    }
    match guard(true, SetupStage::Finished, settings.setup_stage) {
        Decision::RedirectTo(p) => {
            return WizardReply::Redirect { location: p.path(), cookie: CookieAction::Keep };
        },
        Decision::Reject => {
            return login_redirect(false);
        },
        Decision::Proceed => {},
    }
    settings.new_setup = false;
    settings.setup_stage = None;
    WizardReply::Terminate
}

/// The form data for the storage stage.
#[allow(non_snake_case)]
pub struct AuthStorageForm {
    pub dbType: DatabaseType,
    pub sqlName: Option<String>,
    pub mysqlURL: Option<String>,
    pub mysqlPort: Option<u32>,
    pub mysqlUsername: Option<String>,
    pub mysqlPassword: Option<String>,
    pub mysqlDbName: Option<String>,
    pub postURL: Option<String>,
    pub postPort: Option<u32>,
    pub postUsername: Option<String>,
    pub postPassword: Option<String>,
    pub postDbName: Option<String>,
}

/// What the host must do to probe the chosen backend. The probe connection
/// is transient: it selects no database, and is closed again whatever the
/// outcome.
pub enum ProbePlan {
    /// Ask whether the file exists on disk.
    CheckFile { path: String },
    /// Open a probe connection to the URL and ask whether the catalog
    /// query, with the optional bound parameter, returns a row.
    ConnectAndQuery { url: String, query: String, bind: Option<String> },
}

/// The form errors of the storage stage: 1 the SQLite file name is missing
/// or not an accepted database file name, 2 a MySQL field is missing, 4 a
/// PostgreSQL field is missing. (3 and 5 are the connection failures of the
/// two server dialects, raised when the probe itself fails.)
pub open spec fn storage_form_error(f: AuthStorageForm) -> Option<int> {
    match f.dbType {
        DatabaseType::SQLite => if f.sqlName is None || !is_sqlite_file_name(f.sqlName->0@) {
            Some(1int)
        } else {
            None
        },
        DatabaseType::MySQL => if f.mysqlURL is None || f.mysqlDbName is None
            || f.mysqlPassword is None || f.mysqlPort is None || f.mysqlUsername is None {
            Some(2int)
        } else {
            None
        },
        DatabaseType::PostgreSQL => if f.postURL is None || f.postDbName is None
            || f.postPassword is None || f.postPort is None || f.postUsername is None {
            Some(4int)
        } else {
            None
        },
    }
}

/// The redirect location for a storage-stage error code.
pub open spec fn storage_err_path(e: int) -> Seq<char> {
    if e == 1 {
        "/storage?err=1"@
    } else if e == 2 {
        "/storage?err=2"@
    } else if e == 3 {
        "/storage?err=3"@
    } else if e == 4 {
        "/storage?err=4"@
    } else {
        "/storage?err=5"@
    }
}

/// The probe event the host hands back fits the dialect the form chose:
/// a file check answers a SQLite plan, a connection outcome answers a
/// server plan.
pub open spec fn probe_fits(d: DatabaseType, p: ProbeResult) -> bool {
    match d {
        DatabaseType::SQLite => p is File,
        DatabaseType::MySQL => p is Connected || p is ConnectFailed,
        DatabaseType::PostgreSQL => p is Connected || p is ConnectFailed,
    }
}

/// Begin a storage submission: the session check, the stage guard, and the
/// form validation. On success it hands the host the probe to carry out;
/// any failure is the redirect to reply with, and nothing may be probed or
/// mutated.
pub fn plan_storage(
    state: &SessionState,
    cookie: Option<&str>,
    persisted: Option<SetupStage>,
    form: &AuthStorageForm,
) -> (r: Result<ProbePlan, WizardReply>)
    ensures
        ({
            let chk = spec_check_login(*state, opt_str_view(cookie));
            &&& (chk matches SessionCheck::ToLogin { clear_cookie } ==> (r matches Err(rep)
                && is_login_redirect(rep, clear_cookie)))
            &&& (chk == SessionCheck::Authenticated ==> match spec_guard(
                true,
                SetupStage::Storage,
                persisted,
            ) {
                Decision::RedirectTo(p) => r matches Err(rep) && is_plain_redirect(
                    rep,
                    p.path_spec(),
                ),
                Decision::Reject => r matches Err(rep) && is_login_redirect(rep, false),
                Decision::Proceed => match storage_form_error(*form) {
                    Some(e) => r matches Err(rep) && is_plain_redirect(rep, storage_err_path(e)),
                    None => r matches Ok(plan) && match form.dbType {
                        DatabaseType::SQLite => plan matches ProbePlan::CheckFile { path } && path@
                            == form.sqlName->0@,
                        DatabaseType::MySQL => plan matches ProbePlan::ConnectAndQuery {
                            url,
                            query,
                            bind,
                        } && url@ == spec_mysql_probe_url(
                            form.mysqlUsername->0@,
                            form.mysqlPassword->0@,
                            form.mysqlURL->0@,
                            form.mysqlPort->0,
                        ) && query@
                            == "SELECT SCHEMA_NAME FROM INFORMATION_SCHEMA.SCHEMATA WHERE SCHEMA_NAME = ?"@
                            && (bind matches Some(b) && b@ == form.mysqlDbName->0@),
                        DatabaseType::PostgreSQL => plan matches ProbePlan::ConnectAndQuery {
                            url,
                            query,
                            bind,
                        } && url@ == spec_postgres_probe_url(
                            form.postUsername->0@,
                            form.postPassword->0@,
                            form.postURL->0@,
                            form.postPort->0,
                        ) && query@ == "SELECT datname FROM pg_catalog.pg_database WHERE datname = '"@
                            + form.postDbName->0@ + "';"@ && bind is None,
                    },
                },
            })
        }),
{
    match check_login(state, cookie) {
        SessionCheck::ToLogin { clear_cookie } => {
            return Err(login_redirect(clear_cookie));
        },
        SessionCheck::Authenticated => {},
    }
    match guard(true, SetupStage::Storage, persisted) {
        Decision::RedirectTo(p) => {
            return Err(
                WizardReply::Redirect { location: p.path(), cookie: CookieAction::Keep },
            );
        },
        Decision::Reject => {
            return Err(login_redirect(false));
        },
        Decision::Proceed => {},
    }
    match form.dbType {
        DatabaseType::SQLite => {
            match &form.sqlName {
                Some(n) if check_sqlite_file_name(n.as_str()) => Ok(
                    ProbePlan::CheckFile { path: n.clone() },
                ),
                _ => Err(
                    WizardReply::Redirect {
                        location: String::from_str("/storage?err=1"),
                        cookie: CookieAction::Keep,
                    },
                ),
            }
        },
        DatabaseType::MySQL => {
            match (
                &form.mysqlURL,
                &form.mysqlPort,
                &form.mysqlUsername,
                &form.mysqlPassword,
                &form.mysqlDbName,
            ) {
                (Some(host), Some(port), Some(user), Some(pass), Some(db)) => {
                    let probe_settings = MysqlSettings {
                        url: host.clone(),
                        port: *port,
                        username: user.clone(),
                        password: pass.clone(),
                        database_name: db.clone(),
                    };
                    Ok(
                        ProbePlan::ConnectAndQuery {
                            url: mysql_probe_url(&probe_settings),
                            query: mysql_schema_query(),
                            bind: Some(db.clone()),
                        },
                    )
                },
                _ => Err(
                    WizardReply::Redirect {
                        location: String::from_str("/storage?err=2"),
                        cookie: CookieAction::Keep,
                    },
                ),
            }
        },
        DatabaseType::PostgreSQL => {
            match (
                &form.postURL,
                &form.postPort,
                &form.postUsername,
                &form.postPassword,
                &form.postDbName,
            ) {
                (Some(host), Some(port), Some(user), Some(pass), Some(db)) => {
                    let probe_settings = PostgreSQLSettings {
                        url: host.clone(),
                        port: *port,
                        username: user.clone(),
                        password: pass.clone(),
                        database_name: db.clone(),
                    };
                    Ok(
                        ProbePlan::ConnectAndQuery {
                            url: postgres_probe_url(&probe_settings),
                            query: postgres_database_query(db.as_str()),
                            bind: None,
                        },
                    )
                },
                _ => Err(
                    WizardReply::Redirect {
                        location: String::from_str("/storage?err=4"),
                        cookie: CookieAction::Keep,
                    },
                ),
            }
        },
    }
}

/// The fields a storage submission never touches.
pub open spec fn storage_untouched(a: BaseSettings, b: BaseSettings) -> bool {
    &&& b.name == a.name
    &&& b.domain == a.domain
    &&& b.ip == a.ip
    &&& b.port == a.port
    &&& b.use_sll == a.use_sll
    &&& b.use_captcha == a.use_captcha
    &&& b.new_setup == a.new_setup
    &&& b.ssl_settings == a.ssl_settings
    &&& b.captcha_settings == a.captcha_settings
}

/// Finish a storage submission with the probe's outcome. A failed
/// connection mutates nothing and redirects back with the dialect's error
/// code (3 for MySQL, 5 for PostgreSQL); otherwise the chosen dialect and
/// its section are stored — the other dialects' sections are cleared, so
/// exactly the variant matching the dialect stays populated — and the
/// stage advances: to ExistingStorage when the database was found, to
/// AccountCreation when it is fresh.
pub fn apply_storage(
    settings: &mut BaseSettings,
    form: &AuthStorageForm,
    probe: &ProbeResult,
) -> (r: WizardReply)
    requires
        old(settings).setup_stage == Some(SetupStage::Storage),
        storage_form_error(*form) is None,
        probe_fits(form.dbType, *probe),
    ensures
        stage_step_ok(old(settings).setup_stage, final(settings).setup_stage),
        storage_untouched(*old(settings), *final(settings)),
        *probe == ProbeResult::ConnectFailed ==> (*final(settings) == *old(settings) && match form
            .dbType {
            DatabaseType::MySQL => is_plain_redirect(r, "/storage?err=3"@),
            DatabaseType::PostgreSQL => is_plain_redirect(r, "/storage?err=5"@),
            DatabaseType::SQLite => true,
        }),
        *probe != ProbeResult::ConnectFailed ==> ({
            &&& final(settings).database_type == form.dbType
            &&& match form.dbType {
                DatabaseType::SQLite => (final(settings).sql_settings matches Some(sq)
                    && sq.file_location@ == form.sqlName->0@),
                DatabaseType::MySQL => (final(settings).mysql_settings matches Some(m) && m.url@
                    == form.mysqlURL->0@ && m.port == form.mysqlPort->0 && m.username@
                    == form.mysqlUsername->0@ && m.password@ == form.mysqlPassword->0@
                    && m.database_name@ == form.mysqlDbName->0@),
                DatabaseType::PostgreSQL => (final(settings).postgre_settings matches Some(p)
                    && p.url@ == form.postURL->0@ && p.port == form.postPort->0 && p.username@
                    == form.postUsername->0@ && p.password@ == form.postPassword->0@
                    && p.database_name@ == form.postDbName->0@),
            }
            &&& final(settings).storage_section_exclusive()
            &&& (crate::provision::spec_provision(*probe)
                == crate::provision::ProvisionOutcome::ExistingDatabaseFound
                ==> (final(settings).setup_stage == Some(SetupStage::ExistingStorage)
                && is_plain_redirect(r, "/existingstorage"@)))
            &&& (crate::provision::spec_provision(*probe)
                == crate::provision::ProvisionOutcome::FreshDatabase ==> (final(settings).setup_stage
                == Some(SetupStage::AccountCreation) && is_plain_redirect(r, "/accountcreation"@)))
        }),
{
    match form.dbType {
        DatabaseType::SQLite => {
            let name = match &form.sqlName {
                Some(n) => n.clone(),
                // excluded by the precondition: a valid SQLite form names its file
                None => String::new(),
            };
            settings.database_type = DatabaseType::SQLite;
            settings.sql_settings = Some(SqlSettings { file_location: name });
            settings.mysql_settings = None;
            settings.postgre_settings = None;
            let exists = match probe {
                ProbeResult::File { exists } => *exists,
                _ => false,
            };
            if exists {
                settings.setup_stage = Some(SetupStage::ExistingStorage);
                WizardReply::Redirect {
                    location: String::from_str("/existingstorage"),
                    cookie: CookieAction::Keep,
                }
            } else {
                settings.setup_stage = Some(SetupStage::AccountCreation);
                WizardReply::Redirect {
                    location: String::from_str("/accountcreation"),
                    cookie: CookieAction::Keep,
                }
            }
        },
        DatabaseType::MySQL => {
            match probe {
                ProbeResult::ConnectFailed => WizardReply::Redirect {
                    location: String::from_str("/storage?err=3"),
                    cookie: CookieAction::Keep,
                },
                ProbeResult::Connected { database_found } => {
                    match (
                        &form.mysqlURL,
                        &form.mysqlPort,
                        &form.mysqlUsername,
                        &form.mysqlPassword,
                        &form.mysqlDbName,
                    ) {
                        (Some(host), Some(port), Some(user), Some(pass), Some(db)) => {
                            settings.database_type = DatabaseType::MySQL;
                            settings.mysql_settings = Some(
                                MysqlSettings {
                                    url: host.clone(),
                                    port: *port,
                                    username: user.clone(),
                                    password: pass.clone(),
                                    database_name: db.clone(),
                                },
                            );
                            settings.sql_settings = None;
                            settings.postgre_settings = None;
                        },
                        _ => {},
                    }
                    if *database_found {
                        settings.setup_stage = Some(SetupStage::ExistingStorage);
                        WizardReply::Redirect {
                            location: String::from_str("/existingstorage"),
                            cookie: CookieAction::Keep,
                        }
                    } else {
                        settings.setup_stage = Some(SetupStage::AccountCreation);
                        WizardReply::Redirect {
                            location: String::from_str("/accountcreation"),
                            cookie: CookieAction::Keep,
                        }
                    }
                },
                // excluded by the precondition: a file event answers only a
                // SQLite plan
                ProbeResult::File { .. } => WizardReply::Redirect {
                    location: String::from_str("/storage?err=3"),
                    cookie: CookieAction::Keep,
                },
            }
        },
        DatabaseType::PostgreSQL => {
            match probe {
                ProbeResult::ConnectFailed => WizardReply::Redirect {
                    location: String::from_str("/storage?err=5"),
                    cookie: CookieAction::Keep,
                },
                ProbeResult::Connected { database_found } => {
                    match (
                        &form.postURL,
                        &form.postPort,
                        &form.postUsername,
                        &form.postPassword,
                        &form.postDbName,
                    ) {
                        (Some(host), Some(port), Some(user), Some(pass), Some(db)) => {
                            settings.database_type = DatabaseType::PostgreSQL;
                            settings.postgre_settings = Some(
                                PostgreSQLSettings {
                                    url: host.clone(),
                                    port: *port,
                                    username: user.clone(),
                                    password: pass.clone(),
                                    database_name: db.clone(),
                                },
                            );
                            settings.sql_settings = None;
                            settings.mysql_settings = None;
                        },
                        _ => {},
                    }
                    if *database_found {
                        settings.setup_stage = Some(SetupStage::ExistingStorage);
                        WizardReply::Redirect {
                            location: String::from_str("/existingstorage"),
                            cookie: CookieAction::Keep,
                        }
                    } else {
                        settings.setup_stage = Some(SetupStage::AccountCreation);
                        WizardReply::Redirect {
                            location: String::from_str("/accountcreation"),
                            cookie: CookieAction::Keep,
                        }
                    }
                },
                // excluded by the precondition: a file event answers only a
                // SQLite plan
                ProbeResult::File { .. } => WizardReply::Redirect {
                    location: String::from_str("/storage?err=5"),
                    cookie: CookieAction::Keep,
                },
            }
        },
    }
}

/// Begin a reset at the ExistingStorage stage: the session check and the
/// stage guard, then the destructive action the host must carry out. Only
/// this path may delete data, and only under the authenticated session and
/// the correct stage.
pub fn plan_reset(
    state: &SessionState,
    cookie: Option<&str>,
    settings: &BaseSettings,
) -> (r: Result<crate::provision::ResetAction, WizardReply>)
    requires
        settings.storage_section_present(),
    ensures
        ({
            let chk = spec_check_login(*state, opt_str_view(cookie));
            &&& (chk matches SessionCheck::ToLogin { clear_cookie } ==> (r matches Err(rep)
                && is_login_redirect(rep, clear_cookie)))
            &&& (chk == SessionCheck::Authenticated ==> match spec_guard(
                true,
                SetupStage::ExistingStorage,
                settings.setup_stage,
            ) {
                Decision::RedirectTo(p) => r matches Err(rep) && is_plain_redirect(
                    rep,
                    p.path_spec(),
                ),
                Decision::Reject => r matches Err(rep) && is_login_redirect(rep, false),
                Decision::Proceed => r matches Ok(action) && match settings.database_type {
                    DatabaseType::SQLite => action matches crate::provision::ResetAction::DeleteFile {
                        path,
                    } && path@ == settings.sql_settings->0.file_location@,
                    DatabaseType::MySQL => action matches crate::provision::ResetAction::ExecuteSql {
                        url,
                        sql,
                    } && url@ == spec_mysql_probe_url(
                        settings.mysql_settings->0.username@,
                        settings.mysql_settings->0.password@,
                        settings.mysql_settings->0.url@,
                        settings.mysql_settings->0.port,
                    ) && sql@ == "DROP DATABASE IF EXISTS "@
                        + settings.mysql_settings->0.database_name@ + ";"@,
                    DatabaseType::PostgreSQL => action matches crate::provision::ResetAction::ExecuteSql {
                        url,
                        sql,
                    } && url@ == spec_postgres_probe_url(
                        settings.postgre_settings->0.username@,
                        settings.postgre_settings->0.password@,
                        settings.postgre_settings->0.url@,
                        settings.postgre_settings->0.port,
                    ) && sql@ == "DROP DATABASE IF EXISTS \""@
                        + settings.postgre_settings->0.database_name@ + "\";"@,
                },
            })
        }),
{
    match check_login(state, cookie) {
        SessionCheck::ToLogin { clear_cookie } => {
            return Err(login_redirect(clear_cookie));
        },
        SessionCheck::Authenticated => {},
    }
    match guard(true, SetupStage::ExistingStorage, settings.setup_stage) {
        Decision::RedirectTo(p) => {
            return Err(
                WizardReply::Redirect { location: p.path(), cookie: CookieAction::Keep },
            );
        },
        Decision::Reject => {
            return Err(login_redirect(false));
        },
        Decision::Proceed => {},
    }
    Ok(crate::provision::reset_action(settings))
}

/// Finish a reset once the host has destroyed the old data: the stage
/// advances to AccountCreation.
pub fn apply_reset(settings: &mut BaseSettings) -> (r: WizardReply)
    requires
        old(settings).setup_stage == Some(SetupStage::ExistingStorage),
    ensures
        stage_step_ok(old(settings).setup_stage, final(settings).setup_stage),
        *final(settings) == (BaseSettings {
            setup_stage: Some(SetupStage::AccountCreation),
            ..*old(settings)
        }),
        is_plain_redirect(r, "/accountcreation"@),
{
    settings.setup_stage = Some(SetupStage::AccountCreation);
    WizardReply::Redirect {
        location: String::from_str("/accountcreation"),
        cookie: CookieAction::Keep,
    }
}

/// The form data for the account creation stage.
#[allow(non_snake_case)]
pub struct AuthAccountCreation {
    pub username: String,
    pub email: String,
    pub password: String,
    pub confirmPassword: String,
}

/// A requested operator account: what the host hashes and inserts into the
/// freshly provisioned storage.
pub struct AccountRequest {
    pub username: String,
    pub email: String,
    pub password: String,
}

/// The numbered errors of the account stage: 1 the username is empty, 2 the
/// email is empty, 3 the password is empty, 4 the two passwords differ.
pub open spec fn account_error(f: AuthAccountCreation) -> Option<int> {
    if f.username@.len() == 0 {
        Some(1int)
    } else if f.email@.len() == 0 {
        Some(2int)
    } else if f.password@.len() == 0 {
        Some(3int)
    } else if f.password@ != f.confirmPassword@ {
        Some(4int)
    } else {
        None
    }
}

/// The redirect location for an account-stage error code.
pub open spec fn account_err_path(e: int) -> Seq<char> {
    if e == 1 {
        "/accountcreation?err=1"@
    } else if e == 2 {
        "/accountcreation?err=2"@
    } else if e == 3 {
        "/accountcreation?err=3"@
    } else {
        "/accountcreation?err=4"@
    }
}

/// Submit the operator account. Requires the session and the
/// AccountCreation stage; a valid form hands the host the account to hash
/// and insert, and the stage advances to Finished.
pub fn submit_account_creation(
    state: &SessionState,
    cookie: Option<&str>,
    settings: &mut BaseSettings,
    form: &AuthAccountCreation,
) -> (r: (WizardReply, Option<AccountRequest>))
    ensures
        stage_step_ok(old(settings).setup_stage, final(settings).setup_stage),
        ({
            let chk = spec_check_login(*state, opt_str_view(cookie));
            &&& (chk matches SessionCheck::ToLogin { clear_cookie } ==> (*final(settings) == *old(
                settings,
            ) && is_login_redirect(r.0, clear_cookie) && r.1 is None))
            &&& (chk == SessionCheck::Authenticated ==> match spec_guard(
                true,
                SetupStage::AccountCreation,
                old(settings).setup_stage,
            ) {
                Decision::RedirectTo(p) => *final(settings) == *old(settings) && is_plain_redirect(
                    r.0,
                    p.path_spec(),
                ) && r.1 is None,
                Decision::Reject => *final(settings) == *old(settings) && is_login_redirect(
                    r.0,
                    false,
                ) && r.1 is None,
                Decision::Proceed => match account_error(*form) {
                    Some(e) => *final(settings) == *old(settings) && is_plain_redirect(
                        r.0,
                        account_err_path(e),
                    ) && r.1 is None,
                    None => {
                        &&& *final(settings) == (BaseSettings {
                            setup_stage: Some(SetupStage::Finished),
                            ..*old(settings)
                        })
                        &&& is_plain_redirect(r.0, "/finished"@)
                        &&& (r.1 matches Some(a) && a.username@ == form.username@ && a.email@
                            == form.email@ && a.password@ == form.password@)
                    },
                },
            })
        }),
{
    match check_login(state, cookie) {
        SessionCheck::ToLogin { clear_cookie } => {
            return (login_redirect(clear_cookie), None);
        },
        SessionCheck::Authenticated => {},
    }
    match guard(true, SetupStage::AccountCreation, settings.setup_stage) {
        Decision::RedirectTo(p) => {
            return (
                WizardReply::Redirect { location: p.path(), cookie: CookieAction::Keep },
                None,
            );
        },
        Decision::Reject => {
            return (login_redirect(false), None);
        },
        Decision::Proceed => {},
    }
    if form.username.as_str().unicode_len() == 0 {
        return (
            WizardReply::Redirect {
                location: String::from_str("/accountcreation?err=1"),
                cookie: CookieAction::Keep,
            },
            None,
        );
    }
    if form.email.as_str().unicode_len() == 0 {
        return (
            WizardReply::Redirect {
                location: String::from_str("/accountcreation?err=2"),
                cookie: CookieAction::Keep,
            },
            None,
        );
    }
    if form.password.as_str().unicode_len() == 0 {
        return (
            WizardReply::Redirect {
                location: String::from_str("/accountcreation?err=3"),
                cookie: CookieAction::Keep,
            },
            None,
        );
    }
    if !str_eq(form.password.as_str(), form.confirmPassword.as_str()) {
        return (
            WizardReply::Redirect {
                location: String::from_str("/accountcreation?err=4"),
                cookie: CookieAction::Keep,
            },
            None,
        );
    }
    settings.setup_stage = Some(SetupStage::Finished);
    (
        WizardReply::Redirect {
            location: String::from_str("/finished"),
            cookie: CookieAction::Keep,
        },
        Some(
            AccountRequest {
                username: form.username.clone(),
                email: form.email.clone(),
                password: form.password.clone(),
            },
        ),
    )
}

/// How the process may start.
pub enum StartupOutcome {
    /// No record exists yet: persist this default and run the wizard.
    FirstBoot(BaseSettings),
    /// The existing record is valid: run with it.
    Loaded(BaseSettings),
    /// The record could not be decoded, or fails validation: the process
    /// refuses to start rather than run in an undefined state.
    Fatal(SettingsError),
}

/// Decide how the process starts from what the host found on disk: with no
/// settings file, create the default record (setup mode, at the General
/// stage); with a file that decoded, accept it exactly when it validates;
/// anything else is fatal.
pub fn startup(file_exists: bool, parsed: Option<BaseSettings>) -> (r: StartupOutcome)
    ensures
        !file_exists ==> (r matches StartupOutcome::FirstBoot(s) && s.new_setup && s.setup_stage
            == Some(SetupStage::General) && s.wf() && s.name@ == "UnInitalized"@ && s.domain@
            == "forumrs.example.com"@ && s.ip@ == "127.0.0.1"@ && s.port == 8080 && s.database_type
            == DatabaseType::SQLite),
        file_exists ==> match parsed {
            None => r matches StartupOutcome::Fatal(e) && e == SettingsError::Unreadable,
            Some(s) => match spec_validate(s) {
                Ok(_) => r matches StartupOutcome::Loaded(l) && l == s,
                Err(e) => r matches StartupOutcome::Fatal(x) && x == e,
            },
        },
{
    if !file_exists {
        return StartupOutcome::FirstBoot(BaseSettings::create_default());
    }
    match parsed {
        None => StartupOutcome::Fatal(SettingsError::Unreadable),
        Some(s) => {
            match crate::settings::SettingsManager::validate_settings(&s) {
                Ok(_) => StartupOutcome::Loaded(s),
                Err(e) => StartupOutcome::Fatal(e),
            }
        },
    }
}

} // verus!
