//! The on-disk codec for the configuration record. The record is written as
//! one line-less text: every string is preceded by its character count in
//! twenty fixed decimal digits, numbers take ten fixed digits, and flags,
//! the dialect, the stage and each optional section take a single tag
//! character. Decoding is total: any text that is not exactly an encoded
//! record is refused, and decoding an encoded record gives back a record
//! equal in all fields.

use vstd::prelude::*;

use crate::settings::BaseSettings;
use crate::settings::CaptchaSettings;
use crate::settings::DatabaseType;
use crate::settings::MysqlSettings;
use crate::settings::PostgreSQLSettings;
use crate::settings::SSLSettings;
use crate::settings::SqlSettings;
use crate::stage::SetupStage;
use crate::text::all_digits;
use crate::text::dec_value;
use crate::text::fixed_dec;
use crate::text::fixed_dec_string;
use crate::text::lemma_dec_value_bound;
use crate::text::lemma_fixed_dec;
use crate::text::parse_fixed;
use crate::text::pow10;

verus! {

/// The mathematical model of a MySQL section.
pub struct MysqlSettingsModel {
    pub url: Seq<char>,
    pub port: u32,
    pub username: Seq<char>,
    pub password: Seq<char>,
    pub database_name: Seq<char>,
}

/// The mathematical model of a SQLite section.
pub struct SqlSettingsModel {
    pub file_location: Seq<char>,
}

/// The mathematical model of a PostgreSQL section.
pub struct PostgreSQLSettingsModel {
    pub url: Seq<char>,
    pub port: u32,
    pub username: Seq<char>,
    pub password: Seq<char>,
    pub database_name: Seq<char>,
}

/// The mathematical model of an SSL section.
pub struct SSLSettingsModel {
    pub private_key: Seq<char>,
    pub public_key: Seq<char>,
}

/// The mathematical model of a captcha section.
pub struct CaptchaSettingsModel {
    pub site_key: Seq<char>,
    pub secret_key: Seq<char>,
}

/// The mathematical model of the whole configuration record.
pub struct BaseSettingsModel {
    pub name: Seq<char>,
    pub domain: Seq<char>,
    pub ip: Seq<char>,
    pub port: u32,
    pub database_type: DatabaseType,
    pub use_sll: bool,
    pub use_captcha: bool,
    pub new_setup: bool,
    pub setup_stage: Option<SetupStage>,
    pub mysql_settings: Option<MysqlSettingsModel>,
    pub sql_settings: Option<SqlSettingsModel>,
    pub postgre_settings: Option<PostgreSQLSettingsModel>,
    pub ssl_settings: Option<SSLSettingsModel>,
    pub captcha_settings: Option<CaptchaSettingsModel>,
}

impl View for MysqlSettings {
    type V = MysqlSettingsModel;

    open spec fn view(&self) -> MysqlSettingsModel {
        MysqlSettingsModel {
            url: self.url@,
            port: self.port,
            username: self.username@,
            password: self.password@,
            database_name: self.database_name@,
        }
    }
}

impl View for SqlSettings {
    type V = SqlSettingsModel;

    open spec fn view(&self) -> SqlSettingsModel {
        SqlSettingsModel { file_location: self.file_location@ }
    }
}

impl View for PostgreSQLSettings {
    type V = PostgreSQLSettingsModel;

    open spec fn view(&self) -> PostgreSQLSettingsModel {
        PostgreSQLSettingsModel {
            url: self.url@,
            port: self.port,
            username: self.username@,
            password: self.password@,
            database_name: self.database_name@,
        }
    }
}

impl View for SSLSettings {
    type V = SSLSettingsModel;

    open spec fn view(&self) -> SSLSettingsModel {
        SSLSettingsModel { private_key: self.private_key@, public_key: self.public_key@ }
    }
}

impl View for CaptchaSettings {
    type V = CaptchaSettingsModel;

    open spec fn view(&self) -> CaptchaSettingsModel {
        CaptchaSettingsModel { site_key: self.site_key@, secret_key: self.secret_key@ }
    }
}

/// The model of an optional MySQL section.
pub open spec fn opt_mysql_view(o: Option<MysqlSettings>) -> Option<MysqlSettingsModel> {
    match o {
        Some(m) => Some(m@),
        None => None,
    }
}

/// The model of an optional SQLite section.
pub open spec fn opt_sql_view(o: Option<SqlSettings>) -> Option<SqlSettingsModel> {
    match o {
        Some(m) => Some(m@),
        None => None,
    }
}

/// The model of an optional PostgreSQL section.
pub open spec fn opt_pg_view(o: Option<PostgreSQLSettings>) -> Option<PostgreSQLSettingsModel> {
    match o {
        Some(m) => Some(m@),
        None => None,
    }
}

/// The model of an optional SSL section.
pub open spec fn opt_ssl_view(o: Option<SSLSettings>) -> Option<SSLSettingsModel> {
    match o {
        Some(m) => Some(m@),
        None => None,
    }
}

/// The model of an optional captcha section.
pub open spec fn opt_captcha_view(o: Option<CaptchaSettings>) -> Option<CaptchaSettingsModel> {
    match o {
        Some(m) => Some(m@),
        None => None,
    }
}

impl View for BaseSettings {
    type V = BaseSettingsModel;

    open spec fn view(&self) -> BaseSettingsModel {
        BaseSettingsModel {
            name: self.name@,
            domain: self.domain@,
            ip: self.ip@,
            port: self.port,
            database_type: self.database_type,
            use_sll: self.use_sll,
            use_captcha: self.use_captcha,
            new_setup: self.new_setup,
            setup_stage: self.setup_stage,
            mysql_settings: opt_mysql_view(self.mysql_settings),
            sql_settings: opt_sql_view(self.sql_settings),
            postgre_settings: opt_pg_view(self.postgre_settings),
            ssl_settings: opt_ssl_view(self.ssl_settings),
            captcha_settings: opt_captcha_view(self.captcha_settings),
        }
    }
}

/// A string field: its character count in twenty digits, then the
/// characters themselves.
pub open spec fn enc_str(v: Seq<char>) -> Seq<char> {
    fixed_dec(v.len(), 20) + v
}

/// A number field: ten fixed decimal digits.
pub open spec fn enc_u32(n: u32) -> Seq<char> {
    fixed_dec(n as nat, 10)
}

/// A flag: `T` or `F`.
pub open spec fn enc_bool(b: bool) -> Seq<char> {
    if b {
        seq!['T']
    } else {
        seq!['F']
    }
}

/// The dialect tag.
pub open spec fn enc_dialect(d: DatabaseType) -> Seq<char> {
    match d {
        DatabaseType::MySQL => seq!['m'],
        DatabaseType::SQLite => seq!['s'],
        DatabaseType::PostgreSQL => seq!['p'],
    }
}

/// The stage tag: `-` when no stage is recorded.
pub open spec fn enc_stage_opt(s: Option<SetupStage>) -> Seq<char> {
    match s {
        None => seq!['-'],
        Some(SetupStage::General) => seq!['g'],
        Some(SetupStage::Security) => seq!['y'],
        Some(SetupStage::Storage) => seq!['t'],
        Some(SetupStage::ExistingStorage) => seq!['e'],
        Some(SetupStage::AccountCreation) => seq!['a'],
        Some(SetupStage::Finished) => seq!['f'],
    }
}

/// A MySQL section's fields in order.
pub open spec fn enc_mysql(m: MysqlSettingsModel) -> Seq<char> {
    enc_str(m.url) + enc_u32(m.port) + enc_str(m.username) + enc_str(m.password) + enc_str(
        m.database_name,
    )
}

/// A SQLite section's one field.
pub open spec fn enc_sql(m: SqlSettingsModel) -> Seq<char> {
    enc_str(m.file_location)
}

/// A PostgreSQL section's fields in order.
pub open spec fn enc_pg(m: PostgreSQLSettingsModel) -> Seq<char> {
    enc_str(m.url) + enc_u32(m.port) + enc_str(m.username) + enc_str(m.password) + enc_str(
        m.database_name,
    )
}

/// An SSL section's fields in order.
pub open spec fn enc_ssl(m: SSLSettingsModel) -> Seq<char> {
    enc_str(m.private_key) + enc_str(m.public_key)
}

/// A captcha section's fields in order.
pub open spec fn enc_captcha(m: CaptchaSettingsModel) -> Seq<char> {
    enc_str(m.site_key) + enc_str(m.secret_key)
}

/// An optional MySQL section: `-` when absent, `+` and the section when
/// present.
pub open spec fn enc_opt_mysql(o: Option<MysqlSettingsModel>) -> Seq<char> {
    match o {
        None => seq!['-'],
        Some(m) => seq!['+'] + enc_mysql(m),
    }
}

/// An optional SQLite section.
pub open spec fn enc_opt_sql(o: Option<SqlSettingsModel>) -> Seq<char> {
    match o {
        None => seq!['-'],
        Some(m) => seq!['+'] + enc_sql(m),
    }
}

/// An optional PostgreSQL section.
pub open spec fn enc_opt_pg(o: Option<PostgreSQLSettingsModel>) -> Seq<char> {
    match o {
        None => seq!['-'],
        Some(m) => seq!['+'] + enc_pg(m),
    }
}

/// An optional SSL section.
pub open spec fn enc_opt_ssl(o: Option<SSLSettingsModel>) -> Seq<char> {
    match o {
        None => seq!['-'],
        Some(m) => seq!['+'] + enc_ssl(m),
    }
}

/// An optional captcha section.
pub open spec fn enc_opt_captcha(o: Option<CaptchaSettingsModel>) -> Seq<char> {
    match o {
        None => seq!['-'],
        Some(m) => seq!['+'] + enc_captcha(m),
    }
}

/// The whole record: its fourteen fields in declaration order.
pub open spec fn enc_settings(s: BaseSettingsModel) -> Seq<char> {
    enc_str(s.name) + enc_str(s.domain) + enc_str(s.ip) + enc_u32(s.port) + enc_dialect(
        s.database_type,
    ) + enc_bool(s.use_sll) + enc_bool(s.use_captcha) + enc_bool(s.new_setup) + enc_stage_opt(
        s.setup_stage,
    ) + enc_opt_mysql(s.mysql_settings) + enc_opt_sql(s.sql_settings) + enc_opt_pg(
        s.postgre_settings,
    ) + enc_opt_ssl(s.ssl_settings) + enc_opt_captcha(s.captcha_settings)
}

/// Parse a string field from the head of the text: twenty digits give the
/// count, which that many characters follow.
pub open spec fn p_str(s: Seq<char>) -> Option<(Seq<char>, Seq<char>)> {
    if s.len() >= 20 && all_digits(s.subrange(0, 20)) {
        let n = dec_value(s.subrange(0, 20));
        if 0 <= n <= s.len() - 20 {
            Some((s.subrange(20, 20 + n), s.subrange(20 + n, s.len() as int)))
        } else {
            None
        }
    } else {
        None
    }
}

/// Parse a number field: ten digits whose value fits the type.
pub open spec fn p_u32(s: Seq<char>) -> Option<(u32, Seq<char>)> {
    if s.len() >= 10 && all_digits(s.subrange(0, 10)) && 0 <= dec_value(s.subrange(0, 10))
        <= u32::MAX {
        Some((dec_value(s.subrange(0, 10)) as u32, s.subrange(10, s.len() as int)))
    } else {
        None
    }
}

/// Parse a flag.
pub open spec fn p_bool(s: Seq<char>) -> Option<(bool, Seq<char>)> {
    if s.len() >= 1 && s[0] == 'T' {
        Some((true, s.subrange(1, s.len() as int)))
    } else if s.len() >= 1 && s[0] == 'F' {
        Some((false, s.subrange(1, s.len() as int)))
    } else {
        None
    }
}

/// Parse the dialect tag.
pub open spec fn p_dialect(s: Seq<char>) -> Option<(DatabaseType, Seq<char>)> {
    if s.len() >= 1 && s[0] == 'm' {
        Some((DatabaseType::MySQL, s.subrange(1, s.len() as int)))
    } else if s.len() >= 1 && s[0] == 's' {
        Some((DatabaseType::SQLite, s.subrange(1, s.len() as int)))
    } else if s.len() >= 1 && s[0] == 'p' {
        Some((DatabaseType::PostgreSQL, s.subrange(1, s.len() as int)))
    } else {
        None
    }
}

/// Parse the stage tag.
pub open spec fn p_stage_opt(s: Seq<char>) -> Option<(Option<SetupStage>, Seq<char>)> {
    if s.len() >= 1 && s[0] == '-' {
        Some((None, s.subrange(1, s.len() as int)))
    } else if s.len() >= 1 && s[0] == 'g' {
        Some((Some(SetupStage::General), s.subrange(1, s.len() as int)))
    } else if s.len() >= 1 && s[0] == 'y' {
        Some((Some(SetupStage::Security), s.subrange(1, s.len() as int)))
    } else if s.len() >= 1 && s[0] == 't' {
        Some((Some(SetupStage::Storage), s.subrange(1, s.len() as int)))
    } else if s.len() >= 1 && s[0] == 'e' {
        Some((Some(SetupStage::ExistingStorage), s.subrange(1, s.len() as int)))
    } else if s.len() >= 1 && s[0] == 'a' {
        Some((Some(SetupStage::AccountCreation), s.subrange(1, s.len() as int)))
    } else if s.len() >= 1 && s[0] == 'f' {
        Some((Some(SetupStage::Finished), s.subrange(1, s.len() as int)))
    } else {
        None
    }
}

/// Parse a MySQL section.
pub open spec fn p_mysql(s: Seq<char>) -> Option<(MysqlSettingsModel, Seq<char>)> {
    match p_str(s) {
        None => None,
        Some((url, s1)) => match p_u32(s1) {
            None => None,
            Some((port, s2)) => match p_str(s2) {
                None => None,
                Some((username, s3)) => match p_str(s3) {
                    None => None,
                    Some((password, s4)) => match p_str(s4) {
                        None => None,
                        Some((database_name, s5)) => Some(
                            (
                                MysqlSettingsModel { url, port, username, password, database_name },
                                s5,
                            ),
                        ),
                    },
                },
            },
        },
    }
}

/// Parse a SQLite section.
pub open spec fn p_sql(s: Seq<char>) -> Option<(SqlSettingsModel, Seq<char>)> {
    match p_str(s) {
        None => None,
        Some((file_location, s1)) => Some((SqlSettingsModel { file_location }, s1)),
    }
}

/// Parse a PostgreSQL section.
pub open spec fn p_pg(s: Seq<char>) -> Option<(PostgreSQLSettingsModel, Seq<char>)> {
    match p_str(s) {
        None => None,
        Some((url, s1)) => match p_u32(s1) {
            None => None,
            Some((port, s2)) => match p_str(s2) {
                None => None,
                Some((username, s3)) => match p_str(s3) {
                    None => None,
                    Some((password, s4)) => match p_str(s4) {
                        None => None,
                        Some((database_name, s5)) => Some(
                            (
                                PostgreSQLSettingsModel {
                                    url,
                                    port,
                                    username,
                                    password,
                                    database_name,
                                },
                                s5,
                            ),
                        ),
                    },
                },
            },
        },
    }
}

/// Parse an SSL section.
pub open spec fn p_ssl(s: Seq<char>) -> Option<(SSLSettingsModel, Seq<char>)> {
    match p_str(s) {
        None => None,
        Some((private_key, s1)) => match p_str(s1) {
            None => None,
            Some((public_key, s2)) => Some((SSLSettingsModel { private_key, public_key }, s2)),
        },
    }
}

/// Parse a captcha section.
pub open spec fn p_captcha(s: Seq<char>) -> Option<(CaptchaSettingsModel, Seq<char>)> {
    match p_str(s) {
        None => None,
        Some((site_key, s1)) => match p_str(s1) {
            None => None,
            Some((secret_key, s2)) => Some((CaptchaSettingsModel { site_key, secret_key }, s2)),
        },
    }
}

/// Parse an optional MySQL section.
pub open spec fn p_opt_mysql(s: Seq<char>) -> Option<(Option<MysqlSettingsModel>, Seq<char>)> {
    if s.len() >= 1 && s[0] == '-' {
        Some((None, s.subrange(1, s.len() as int)))
    } else if s.len() >= 1 && s[0] == '+' {
        match p_mysql(s.subrange(1, s.len() as int)) {
            None => None,
            Some((m, rest)) => Some((Some(m), rest)),
        }
    } else {
        None
    }
}

/// Parse an optional SQLite section.
pub open spec fn p_opt_sql(s: Seq<char>) -> Option<(Option<SqlSettingsModel>, Seq<char>)> {
    if s.len() >= 1 && s[0] == '-' {
        Some((None, s.subrange(1, s.len() as int)))
    } else if s.len() >= 1 && s[0] == '+' {
        match p_sql(s.subrange(1, s.len() as int)) {
            None => None,
            Some((m, rest)) => Some((Some(m), rest)),
        }
    } else {
        None
    }
}

/// Parse an optional PostgreSQL section.
pub open spec fn p_opt_pg(s: Seq<char>) -> Option<(Option<PostgreSQLSettingsModel>, Seq<char>)> {
    if s.len() >= 1 && s[0] == '-' {
        Some((None, s.subrange(1, s.len() as int)))
    } else if s.len() >= 1 && s[0] == '+' {
        match p_pg(s.subrange(1, s.len() as int)) {
            None => None,
            Some((m, rest)) => Some((Some(m), rest)),
        }
    } else {
        None
    }
}

/// Parse an optional SSL section.
pub open spec fn p_opt_ssl(s: Seq<char>) -> Option<(Option<SSLSettingsModel>, Seq<char>)> {
    if s.len() >= 1 && s[0] == '-' {
        Some((None, s.subrange(1, s.len() as int)))
    } else if s.len() >= 1 && s[0] == '+' {
        match p_ssl(s.subrange(1, s.len() as int)) {
            None => None,
            Some((m, rest)) => Some((Some(m), rest)),
        }
    } else {
        None
    }
}

/// Parse an optional captcha section.
pub open spec fn p_opt_captcha(s: Seq<char>) -> Option<(Option<CaptchaSettingsModel>, Seq<char>)> {
    if s.len() >= 1 && s[0] == '-' {
        Some((None, s.subrange(1, s.len() as int)))
    } else if s.len() >= 1 && s[0] == '+' {
        match p_captcha(s.subrange(1, s.len() as int)) {
            None => None,
            Some((m, rest)) => Some((Some(m), rest)),
        }
    } else {
        None
    }
}

/// Parse a whole record: its fourteen fields in order, with nothing left
/// over.
pub open spec fn spec_decode(s: Seq<char>) -> Option<BaseSettingsModel> {
    match p_str(s) {
        None => None,
        Some((name, s1)) => match p_str(s1) {
            None => None,
            Some((domain, s2)) => match p_str(s2) {
                None => None,
                Some((ip, s3)) => match p_u32(s3) {
                    None => None,
                    Some((port, s4)) => match p_dialect(s4) {
                        None => None,
                        Some((database_type, s5)) => match p_bool(s5) {
                            None => None,
                            Some((use_sll, s6)) => match p_bool(s6) {
                                None => None,
                                Some((use_captcha, s7)) => match p_bool(s7) {
                                    None => None,
                                    Some((new_setup, s8)) => match p_stage_opt(s8) {
                                        None => None,
                                        Some((setup_stage, s9)) => match p_opt_mysql(s9) {
                                            None => None,
                                            Some((mysql_settings, s10)) => match p_opt_sql(s10) {
                                                None => None,
                                                Some((sql_settings, s11)) => match p_opt_pg(s11) {
                                                    None => None,
                                                    Some((postgre_settings, s12)) => match p_opt_ssl(
                                                        s12,
                                                    ) {
                                                        None => None,
                                                        Some((ssl_settings, s13)) => match p_opt_captcha(
                                                            s13,
                                                        ) {
                                                            None => None,
                                                            Some((captcha_settings, s14)) => if s14.len()
                                                                == 0 {
                                                                Some(
                                                                    BaseSettingsModel {
                                                                        name,
                                                                        domain,
                                                                        ip,
                                                                        port,
                                                                        database_type,
                                                                        use_sll,
                                                                        use_captcha,
                                                                        new_setup,
                                                                        setup_stage,
                                                                        mysql_settings,
                                                                        sql_settings,
                                                                        postgre_settings,
                                                                        ssl_settings,
                                                                        captcha_settings,
                                                                    },
                                                                )
                                                            } else {
                                                                None
                                                            },
                                                        },
                                                    },
                                                },
                                            },
                                        },
                                    },
                                },
                            },
                        },
                    },
                },
            },
        },
    }
}

/// Append one encoded string field.
fn put_str(buf: &mut String, v: &String)
    ensures
        final(buf)@ == old(buf)@ + enc_str(v@),
{
    let n = v.as_str().unicode_len();
    let len_text = fixed_dec_string(n as u64, 20);
    buf.append(len_text.as_str());
    buf.append(v.as_str());
    proof {
        assert(final(buf)@ =~= old(buf)@ + enc_str(v@));
    }
}

/// Append one encoded number field.
fn put_u32(buf: &mut String, n: u32)
    ensures
        final(buf)@ == old(buf)@ + enc_u32(n),
{
    let text = fixed_dec_string(n as u64, 10);
    buf.append(text.as_str());
}

/// Append one flag.
fn put_bool(buf: &mut String, b: bool)
    ensures
        final(buf)@ == old(buf)@ + enc_bool(b),
{
    proof {
        reveal_strlit("T");
        reveal_strlit("F");
        assert("T"@ =~= seq!['T']);
        assert("F"@ =~= seq!['F']);
    }
    if b {
        buf.append("T");
    } else {
        buf.append("F");
    }
}

/// Append the dialect tag.
fn put_dialect(buf: &mut String, d: DatabaseType)
    ensures
        final(buf)@ == old(buf)@ + enc_dialect(d),
{
    proof {
        reveal_strlit("m");
        reveal_strlit("s");
        reveal_strlit("p");
        assert("m"@ =~= seq!['m']);
        assert("s"@ =~= seq!['s']);
        assert("p"@ =~= seq!['p']);
    }
    match d {
        DatabaseType::MySQL => buf.append("m"),
        DatabaseType::SQLite => buf.append("s"),
        DatabaseType::PostgreSQL => buf.append("p"),
    }
}

/// Append the stage tag.
fn put_stage_opt(buf: &mut String, s: Option<SetupStage>)
    ensures
        final(buf)@ == old(buf)@ + enc_stage_opt(s),
{
    proof {
        reveal_strlit("-");
        reveal_strlit("g");
        reveal_strlit("y");
        reveal_strlit("t");
        reveal_strlit("e");
        reveal_strlit("a");
        reveal_strlit("f");
        assert("-"@ =~= seq!['-']);
        assert("g"@ =~= seq!['g']);
        assert("y"@ =~= seq!['y']);
        assert("t"@ =~= seq!['t']);
        assert("e"@ =~= seq!['e']);
        assert("a"@ =~= seq!['a']);
        assert("f"@ =~= seq!['f']);
    }
    match s {
        None => buf.append("-"),
        Some(SetupStage::General) => buf.append("g"),
        Some(SetupStage::Security) => buf.append("y"),
        Some(SetupStage::Storage) => buf.append("t"),
        Some(SetupStage::ExistingStorage) => buf.append("e"),
        Some(SetupStage::AccountCreation) => buf.append("a"),
        Some(SetupStage::Finished) => buf.append("f"),
    }
}

/// Append the section-presence tag.
fn put_tag(buf: &mut String, present: bool)
    ensures
        final(buf)@ == old(buf)@ + if present {
            seq!['+']
        } else {
            seq!['-']
        },
{
    proof {
        reveal_strlit("-");
        reveal_strlit("+");
        assert("-"@ =~= seq!['-']);
        assert("+"@ =~= seq!['+']);
    }
    if present {
        buf.append("+");
    } else {
        buf.append("-");
    }
}

/// Append an optional MySQL section.
fn put_opt_mysql(buf: &mut String, o: &Option<MysqlSettings>)
    ensures
        final(buf)@ == old(buf)@ + enc_opt_mysql(opt_mysql_view(*o)),
{
    match o {
        None => put_tag(buf, false),
        Some(m) => {
            put_tag(buf, true);
            put_str(buf, &m.url);
            put_u32(buf, m.port);
            put_str(buf, &m.username);
            put_str(buf, &m.password);
            put_str(buf, &m.database_name);
            proof {
                assert(final(buf)@ =~= old(buf)@ + enc_opt_mysql(opt_mysql_view(*o)));
            }
        },
    }
}

/// Append an optional SQLite section.
fn put_opt_sql(buf: &mut String, o: &Option<SqlSettings>)
    ensures
        final(buf)@ == old(buf)@ + enc_opt_sql(opt_sql_view(*o)),
{
    match o {
        None => put_tag(buf, false),
        Some(m) => {
            put_tag(buf, true);
            put_str(buf, &m.file_location);
            proof {
                assert(final(buf)@ =~= old(buf)@ + enc_opt_sql(opt_sql_view(*o)));
            }
        },
    }
}

/// Append an optional PostgreSQL section.
fn put_opt_pg(buf: &mut String, o: &Option<PostgreSQLSettings>)
    ensures
        final(buf)@ == old(buf)@ + enc_opt_pg(opt_pg_view(*o)),
{
    match o {
        None => put_tag(buf, false),
        Some(m) => {
            put_tag(buf, true);
            put_str(buf, &m.url);
            put_u32(buf, m.port);
            put_str(buf, &m.username);
            put_str(buf, &m.password);
            put_str(buf, &m.database_name);
            proof {
                assert(final(buf)@ =~= old(buf)@ + enc_opt_pg(opt_pg_view(*o)));
            }
        },
    }
}

/// Append an optional SSL section.
fn put_opt_ssl(buf: &mut String, o: &Option<SSLSettings>)
    ensures
        final(buf)@ == old(buf)@ + enc_opt_ssl(opt_ssl_view(*o)),
{
    match o {
        None => put_tag(buf, false),
        Some(m) => {
            put_tag(buf, true);
            put_str(buf, &m.private_key);
            put_str(buf, &m.public_key);
            proof {
                assert(final(buf)@ =~= old(buf)@ + enc_opt_ssl(opt_ssl_view(*o)));
            }
        },
    }
}

/// Append an optional captcha section.
fn put_opt_captcha(buf: &mut String, o: &Option<CaptchaSettings>)
    ensures
        final(buf)@ == old(buf)@ + enc_opt_captcha(opt_captcha_view(*o)),
{
    match o {
        None => put_tag(buf, false),
        Some(m) => {
            put_tag(buf, true);
            put_str(buf, &m.site_key);
            put_str(buf, &m.secret_key);
            proof {
                assert(final(buf)@ =~= old(buf)@ + enc_opt_captcha(opt_captcha_view(*o)));
            }
        },
    }
}

/// A string field fits the format: its count has at most twenty digits.
/// Any string that exists in memory is far below this bound.
pub open spec fn str_fits(v: Seq<char>) -> bool {
    v.len() < pow10(20)
}

/// A MySQL section fits the format.
pub open spec fn mysql_fits(m: MysqlSettingsModel) -> bool {
    &&& str_fits(m.url)
    &&& str_fits(m.username)
    &&& str_fits(m.password)
    &&& str_fits(m.database_name)
}

/// A PostgreSQL section fits the format.
pub open spec fn pg_fits(m: PostgreSQLSettingsModel) -> bool {
    &&& str_fits(m.url)
    &&& str_fits(m.username)
    &&& str_fits(m.password)
    &&& str_fits(m.database_name)
}

/// An SSL section fits the format.
pub open spec fn ssl_fits(m: SSLSettingsModel) -> bool {
    str_fits(m.private_key) && str_fits(m.public_key)
}

/// A captcha section fits the format.
pub open spec fn captcha_fits(m: CaptchaSettingsModel) -> bool {
    str_fits(m.site_key) && str_fits(m.secret_key)
}

/// A record fits the format: every string field's count has at most twenty
/// digits. Any record that exists in memory satisfies this.
pub open spec fn model_fits(s: BaseSettingsModel) -> bool {
    &&& str_fits(s.name)
    &&& str_fits(s.domain)
    &&& str_fits(s.ip)
    &&& (s.mysql_settings matches Some(m) ==> mysql_fits(m))
    &&& (s.sql_settings matches Some(m) ==> str_fits(m.file_location))
    &&& (s.postgre_settings matches Some(m) ==> pg_fits(m))
    &&& (s.ssl_settings matches Some(m) ==> ssl_fits(m))
    &&& (s.captcha_settings matches Some(m) ==> captcha_fits(m))
}

/// Parsing reads back exactly the string field an encoder wrote.
proof fn lemma_rt_str(v: Seq<char>, rest: Seq<char>)
    requires
        str_fits(v),
    ensures
        p_str(enc_str(v) + rest) == Some((v, rest)),
{
    let e = fixed_dec(v.len(), 20);
    lemma_fixed_dec(v.len(), 20);
    let s = enc_str(v) + rest;
    assert(s.subrange(0, 20) =~= e);
    assert(s.subrange(20, 20 + v.len() as int) =~= v);
    assert(s.subrange(20 + v.len() as int, s.len() as int) =~= rest);
}

/// Parsing reads back exactly the number field an encoder wrote.
proof fn lemma_rt_u32(n: u32, rest: Seq<char>)
    ensures
        p_u32(enc_u32(n) + rest) == Some((n, rest)),
{
    lemma_fixed_dec(n as nat, 10);
    assert(n < pow10(10)) by {
        reveal_with_fuel(pow10, 11);
    }
    let e = fixed_dec(n as nat, 10);
    let s = enc_u32(n) + rest;
    assert(s.subrange(0, 10) =~= e);
    assert(s.subrange(10, s.len() as int) =~= rest);
}

/// Parsing reads back exactly the flag an encoder wrote.
proof fn lemma_rt_bool(b: bool, rest: Seq<char>)
    ensures
        p_bool(enc_bool(b) + rest) == Some((b, rest)),
{
    let s = enc_bool(b) + rest;
    assert(s[0] == if b {
        'T'
    } else {
        'F'
    });
    assert(s.subrange(1, s.len() as int) =~= rest);
}

/// Parsing reads back exactly the dialect tag an encoder wrote.
proof fn lemma_rt_dialect(d: DatabaseType, rest: Seq<char>)
    ensures
        p_dialect(enc_dialect(d) + rest) == Some((d, rest)),
{
    let s = enc_dialect(d) + rest;
    assert(s.subrange(1, s.len() as int) =~= rest);
    match d {
        DatabaseType::MySQL => assert(s[0] == 'm'),
        DatabaseType::SQLite => assert(s[0] == 's'),
        DatabaseType::PostgreSQL => assert(s[0] == 'p'),
    }
}

/// Parsing reads back exactly the stage tag an encoder wrote.
proof fn lemma_rt_stage_opt(st: Option<SetupStage>, rest: Seq<char>)
    ensures
        p_stage_opt(enc_stage_opt(st) + rest) == Some((st, rest)),
{
    let s = enc_stage_opt(st) + rest;
    assert(s.subrange(1, s.len() as int) =~= rest);
    match st {
        None => assert(s[0] == '-'),
        Some(SetupStage::General) => assert(s[0] == 'g'),
        Some(SetupStage::Security) => assert(s[0] == 'y'),
        Some(SetupStage::Storage) => assert(s[0] == 't'),
        Some(SetupStage::ExistingStorage) => assert(s[0] == 'e'),
        Some(SetupStage::AccountCreation) => assert(s[0] == 'a'),
        Some(SetupStage::Finished) => assert(s[0] == 'f'),
    }
}

/// Parsing reads back exactly the MySQL section an encoder wrote.
proof fn lemma_rt_mysql(m: MysqlSettingsModel, rest: Seq<char>)
    requires
        mysql_fits(m),
    ensures
        p_mysql(enc_mysql(m) + rest) == Some((m, rest)),
{
    let t4 = enc_str(m.database_name) + rest;
    let t3 = enc_str(m.password) + t4;
    let t2 = enc_str(m.username) + t3;
    let t1 = enc_u32(m.port) + t2;
    assert(enc_mysql(m) + rest =~= enc_str(m.url) + t1);
    lemma_rt_str(m.url, t1);
    lemma_rt_u32(m.port, t2);
    lemma_rt_str(m.username, t3);
    lemma_rt_str(m.password, t4);
    lemma_rt_str(m.database_name, rest);
}

/// Parsing reads back exactly the SQLite section an encoder wrote.
proof fn lemma_rt_sql(m: SqlSettingsModel, rest: Seq<char>)
    requires
        str_fits(m.file_location),
    ensures
        p_sql(enc_sql(m) + rest) == Some((m, rest)),
{
    lemma_rt_str(m.file_location, rest);
}

/// Parsing reads back exactly the PostgreSQL section an encoder wrote.
proof fn lemma_rt_pg(m: PostgreSQLSettingsModel, rest: Seq<char>)
    requires
        pg_fits(m),
    ensures
        p_pg(enc_pg(m) + rest) == Some((m, rest)),
{
    let t4 = enc_str(m.database_name) + rest;
    let t3 = enc_str(m.password) + t4;
    let t2 = enc_str(m.username) + t3;
    let t1 = enc_u32(m.port) + t2;
    assert(enc_pg(m) + rest =~= enc_str(m.url) + t1);
    lemma_rt_str(m.url, t1);
    lemma_rt_u32(m.port, t2);
    lemma_rt_str(m.username, t3);
    lemma_rt_str(m.password, t4);
    lemma_rt_str(m.database_name, rest);
}

/// Parsing reads back exactly the SSL section an encoder wrote.
proof fn lemma_rt_ssl(m: SSLSettingsModel, rest: Seq<char>)
    requires
        ssl_fits(m),
    ensures
        p_ssl(enc_ssl(m) + rest) == Some((m, rest)),
{
    let t1 = enc_str(m.public_key) + rest;
    assert(enc_ssl(m) + rest =~= enc_str(m.private_key) + t1);
    lemma_rt_str(m.private_key, t1);
    lemma_rt_str(m.public_key, rest);
}

/// Parsing reads back exactly the captcha section an encoder wrote.
proof fn lemma_rt_captcha(m: CaptchaSettingsModel, rest: Seq<char>)
    requires
        captcha_fits(m),
    ensures
        p_captcha(enc_captcha(m) + rest) == Some((m, rest)),
{
    let t1 = enc_str(m.secret_key) + rest;
    assert(enc_captcha(m) + rest =~= enc_str(m.site_key) + t1);
    lemma_rt_str(m.site_key, t1);
    lemma_rt_str(m.secret_key, rest);
}

/// Parsing reads back exactly the optional MySQL section an encoder wrote.
proof fn lemma_rt_opt_mysql(o: Option<MysqlSettingsModel>, rest: Seq<char>)
    requires
        o matches Some(m) ==> mysql_fits(m),
    ensures
        p_opt_mysql(enc_opt_mysql(o) + rest) == Some((o, rest)),
{
    let s = enc_opt_mysql(o) + rest;
    match o {
        None => {
            assert(s[0] == '-');
            assert(s.subrange(1, s.len() as int) =~= rest);
        },
        Some(m) => {
            assert(s[0] == '+');
            assert(s.subrange(1, s.len() as int) =~= enc_mysql(m) + rest);
            lemma_rt_mysql(m, rest);
        },
    }
}

/// Parsing reads back exactly the optional SQLite section an encoder wrote.
proof fn lemma_rt_opt_sql(o: Option<SqlSettingsModel>, rest: Seq<char>)
    requires
        o matches Some(m) ==> str_fits(m.file_location),
    ensures
        p_opt_sql(enc_opt_sql(o) + rest) == Some((o, rest)),
{
    let s = enc_opt_sql(o) + rest;
    match o {
        None => {
            assert(s[0] == '-');
            assert(s.subrange(1, s.len() as int) =~= rest);
        },
        Some(m) => {
            assert(s[0] == '+');
            assert(s.subrange(1, s.len() as int) =~= enc_sql(m) + rest);
            lemma_rt_sql(m, rest);
        },
    }
}

/// Parsing reads back exactly the optional PostgreSQL section an encoder
/// wrote.
proof fn lemma_rt_opt_pg(o: Option<PostgreSQLSettingsModel>, rest: Seq<char>)
    requires
        o matches Some(m) ==> pg_fits(m),
    ensures
        p_opt_pg(enc_opt_pg(o) + rest) == Some((o, rest)),
{
    let s = enc_opt_pg(o) + rest;
    match o {
        None => {
            assert(s[0] == '-');
            assert(s.subrange(1, s.len() as int) =~= rest);
        },
        Some(m) => {
            assert(s[0] == '+');
            assert(s.subrange(1, s.len() as int) =~= enc_pg(m) + rest);
            lemma_rt_pg(m, rest);
        },
    }
}

/// Parsing reads back exactly the optional SSL section an encoder wrote.
proof fn lemma_rt_opt_ssl(o: Option<SSLSettingsModel>, rest: Seq<char>)
    requires
        o matches Some(m) ==> ssl_fits(m),
    ensures
        p_opt_ssl(enc_opt_ssl(o) + rest) == Some((o, rest)),
{
    let s = enc_opt_ssl(o) + rest;
    match o {
        None => {
            assert(s[0] == '-');
            assert(s.subrange(1, s.len() as int) =~= rest);
        },
        Some(m) => {
            assert(s[0] == '+');
            assert(s.subrange(1, s.len() as int) =~= enc_ssl(m) + rest);
            lemma_rt_ssl(m, rest);
        },
    }
}

/// Parsing reads back exactly the optional captcha section an encoder
/// wrote.
proof fn lemma_rt_opt_captcha(o: Option<CaptchaSettingsModel>, rest: Seq<char>)
    requires
        o matches Some(m) ==> captcha_fits(m),
    ensures
        p_opt_captcha(enc_opt_captcha(o) + rest) == Some((o, rest)),
{
    let s = enc_opt_captcha(o) + rest;
    match o {
        None => {
            assert(s[0] == '-');
            assert(s.subrange(1, s.len() as int) =~= rest);
        },
        Some(m) => {
            assert(s[0] == '+');
            assert(s.subrange(1, s.len() as int) =~= enc_captcha(m) + rest);
            lemma_rt_captcha(m, rest);
        },
    }
}

/// Concatenation of character sequences is associative.
proof fn lemma_add_assoc(a: Seq<char>, b: Seq<char>, c: Seq<char>)
    ensures
        (a + b) + c == a + (b + c),
{
    assert((a + b) + c =~= a + (b + c));
}

/// Round trip: decoding an encoded configuration record yields a record
/// equal in all fields. Every record that exists in memory fits the
/// format's twenty-digit counts.
#[verifier::rlimit(100)]
pub proof fn lemma_settings_round_trip(m: BaseSettingsModel)
    requires
        model_fits(m),
    ensures
        spec_decode(enc_settings(m)) == Some(m),
{
    let e1 = enc_str(m.name);
    let e2 = enc_str(m.domain);
    let e3 = enc_str(m.ip);
    let e4 = enc_u32(m.port);
    let e5 = enc_dialect(m.database_type);
    let e6 = enc_bool(m.use_sll);
    let e7 = enc_bool(m.use_captcha);
    let e8 = enc_bool(m.new_setup);
    let e9 = enc_stage_opt(m.setup_stage);
    let e10 = enc_opt_mysql(m.mysql_settings);
    let e11 = enc_opt_sql(m.sql_settings);
    let e12 = enc_opt_pg(m.postgre_settings);
    let e13 = enc_opt_ssl(m.ssl_settings);
    let e14 = enc_opt_captcha(m.captcha_settings);
    let t13 = e14;
    let t12 = e13 + t13;
    let t11 = e12 + t12;
    let t10 = e11 + t11;
    let t9 = e10 + t10;
    let t8 = e9 + t9;
    let t7 = e8 + t8;
    let t6 = e7 + t7;
    let t5 = e6 + t6;
    let t4 = e5 + t5;
    let t3 = e4 + t4;
    let t2 = e3 + t3;
    let t1 = e2 + t2;
    let p1 = e1;
    let p2 = p1 + e2;
    let p3 = p2 + e3;
    let p4 = p3 + e4;
    let p5 = p4 + e5;
    let p6 = p5 + e6;
    let p7 = p6 + e7;
    let p8 = p7 + e8;
    let p9 = p8 + e9;
    let p10 = p9 + e10;
    let p11 = p10 + e11;
    let p12 = p11 + e12;
    let p13 = p12 + e13;
    let s = enc_settings(m);
    assert(s == p13 + e14);
    lemma_add_assoc(p12, e13, e14);
    assert(s == p12 + t12);
    lemma_add_assoc(p11, e12, t12);
    assert(s == p11 + t11);
    lemma_add_assoc(p10, e11, t11);
    assert(s == p10 + t10);
    lemma_add_assoc(p9, e10, t10);
    assert(s == p9 + t9);
    lemma_add_assoc(p8, e9, t9);
    assert(s == p8 + t8);
    lemma_add_assoc(p7, e8, t8);
    assert(s == p7 + t7);
    lemma_add_assoc(p6, e7, t7);
    assert(s == p6 + t6);
    lemma_add_assoc(p5, e6, t6);
    assert(s == p5 + t5);
    lemma_add_assoc(p4, e5, t5);
    assert(s == p4 + t4);
    lemma_add_assoc(p3, e4, t4);
    assert(s == p3 + t3);
    lemma_add_assoc(p2, e3, t3);
    assert(s == p2 + t2);
    lemma_add_assoc(p1, e2, t2);
    assert(s == e1 + t1);
    lemma_rt_str(m.name, t1);
    assert(p_str(s) == Some((m.name, t1)));
    lemma_rt_str(m.domain, t2);
    assert(p_str(t1) == Some((m.domain, t2)));
    lemma_rt_str(m.ip, t3);
    assert(p_str(t2) == Some((m.ip, t3)));
    lemma_rt_u32(m.port, t4);
    assert(p_u32(t3) == Some((m.port, t4)));
    lemma_rt_dialect(m.database_type, t5);
    assert(p_dialect(t4) == Some((m.database_type, t5)));
    lemma_rt_bool(m.use_sll, t6);
    assert(p_bool(t5) == Some((m.use_sll, t6)));
    lemma_rt_bool(m.use_captcha, t7);
    assert(p_bool(t6) == Some((m.use_captcha, t7)));
    lemma_rt_bool(m.new_setup, t8);
    assert(p_bool(t7) == Some((m.new_setup, t8)));
    lemma_rt_stage_opt(m.setup_stage, t9);
    assert(p_stage_opt(t8) == Some((m.setup_stage, t9)));
    lemma_rt_opt_mysql(m.mysql_settings, t10);
    assert(p_opt_mysql(t9) == Some((m.mysql_settings, t10)));
    lemma_rt_opt_sql(m.sql_settings, t11);
    assert(p_opt_sql(t10) == Some((m.sql_settings, t11)));
    lemma_rt_opt_pg(m.postgre_settings, t12);
    assert(p_opt_pg(t11) == Some((m.postgre_settings, t12)));
    lemma_rt_opt_ssl(m.ssl_settings, t13);
    assert(p_opt_ssl(t12) == Some((m.ssl_settings, t13)));
    lemma_rt_opt_captcha(m.captcha_settings, Seq::<char>::empty());
    assert(t13 =~= e14 + Seq::<char>::empty());
    assert(p_opt_captcha(t13) == Some((m.captcha_settings, Seq::<char>::empty())));
}

/// Encode the configuration record as its on-disk text.
pub fn encode_settings(s: &BaseSettings) -> (r: String)
    ensures
        r@ == enc_settings(s@),
{
    let mut buf = String::new();
    put_str(&mut buf, &s.name);
    proof {
        assert(buf@ =~= enc_str(s@.name));
    }
    put_str(&mut buf, &s.domain);
    put_str(&mut buf, &s.ip);
    put_u32(&mut buf, s.port);
    put_dialect(&mut buf, s.database_type);
    put_bool(&mut buf, s.use_sll);
    put_bool(&mut buf, s.use_captcha);
    put_bool(&mut buf, s.new_setup);
    put_stage_opt(&mut buf, s.setup_stage);
    put_opt_mysql(&mut buf, &s.mysql_settings);
    put_opt_sql(&mut buf, &s.sql_settings);
    put_opt_pg(&mut buf, &s.postgre_settings);
    put_opt_ssl(&mut buf, &s.ssl_settings);
    put_opt_captcha(&mut buf, &s.captcha_settings);
    buf
}

/// Read one string field at character position `i`.
fn d_str(s: &str, i: usize) -> (r: Option<(String, usize)>)
    requires
        i <= s@.len(),
    ensures
        r is Some <==> p_str(s@.skip(i as int)) is Some,
        r matches Some((v, j)) ==> i <= j <= s@.len() && p_str(s@.skip(i as int)) == Some(
            (v@, s@.skip(j as int)),
        ),
{
    let ghost t = s@.skip(i as int);
    let len = s.unicode_len();
    proof {
        if i + 20 <= s@.len() {
            assert(t.subrange(0, 20) =~= s@.subrange(i as int, i + 20));
        }
    }
    match parse_fixed(s, i, 20) {
        None => None,
        Some((v128, _j20)) => {
            proof {
                lemma_dec_value_bound(s@.subrange(i as int, i + 20));
            }
            let avail = (len - i) - 20;
            if v128 > avail as u128 {
                return None;
            }
            let n = v128 as usize;
            let sub = s.substring_char(i + 20, i + 20 + n);
            let v = String::from_str(sub);
            proof {
                assert(t.subrange(20, 20 + n as int) =~= s@.subrange(i + 20, i + 20 + n));
                assert(t.subrange(20 + n as int, t.len() as int) =~= s@.skip(i + 20 + n));
            }
            Some((v, i + 20 + n))
        },
    }
}

/// Read one number field at character position `i`.
fn d_u32(s: &str, i: usize) -> (r: Option<(u32, usize)>)
    requires
        i <= s@.len(),
    ensures
        r is Some <==> p_u32(s@.skip(i as int)) is Some,
        r matches Some((v, j)) ==> i <= j <= s@.len() && p_u32(s@.skip(i as int)) == Some(
            (v, s@.skip(j as int)),
        ),
{
    let ghost t = s@.skip(i as int);
    proof {
        if i + 10 <= s@.len() {
            assert(t.subrange(0, 10) =~= s@.subrange(i as int, i + 10));
        }
    }
    match parse_fixed(s, i, 10) {
        None => None,
        Some((v128, _j10)) => {
            proof {
                lemma_dec_value_bound(s@.subrange(i as int, i + 10));
            }
            if v128 > u32::MAX as u128 {
                return None;
            }
            proof {
                assert(t.subrange(10, t.len() as int) =~= s@.skip(i + 10));
            }
            Some((v128 as u32, i + 10))
        },
    }
}

/// Read one flag at character position `i`.
fn d_bool(s: &str, i: usize) -> (r: Option<(bool, usize)>)
    requires
        i <= s@.len(),
    ensures
        r is Some <==> p_bool(s@.skip(i as int)) is Some,
        r matches Some((v, j)) ==> i <= j <= s@.len() && p_bool(s@.skip(i as int)) == Some(
            (v, s@.skip(j as int)),
        ),
{
    let ghost t = s@.skip(i as int);
    let len = s.unicode_len();
    if i >= len {
        return None;
    }
    let c = s.get_char(i);
    proof {
        assert(t[0] == s@[i as int]);
        assert(t.subrange(1, t.len() as int) =~= s@.skip(i + 1));
    }
    if c == 'T' {
        Some((true, i + 1))
    } else if c == 'F' {
        Some((false, i + 1))
    } else {
        None
    }
}

/// Read the dialect tag at character position `i`.
fn d_dialect(s: &str, i: usize) -> (r: Option<(DatabaseType, usize)>)
    requires
        i <= s@.len(),
    ensures
        r is Some <==> p_dialect(s@.skip(i as int)) is Some,
        r matches Some((v, j)) ==> i <= j <= s@.len() && p_dialect(s@.skip(i as int)) == Some(
            (v, s@.skip(j as int)),
        ),
{
    let ghost t = s@.skip(i as int);
    let len = s.unicode_len();
    if i >= len {
        return None;
    }
    let c = s.get_char(i);
    proof {
        assert(t[0] == s@[i as int]);
        assert(t.subrange(1, t.len() as int) =~= s@.skip(i + 1));
    }
    if c == 'm' {
        Some((DatabaseType::MySQL, i + 1))
    } else if c == 's' {
        Some((DatabaseType::SQLite, i + 1))
    } else if c == 'p' {
        Some((DatabaseType::PostgreSQL, i + 1))
    } else {
        None
    }
}

/// Read the stage tag at character position `i`.
fn d_stage_opt(s: &str, i: usize) -> (r: Option<(Option<SetupStage>, usize)>)
    requires
        i <= s@.len(),
    ensures
        r is Some <==> p_stage_opt(s@.skip(i as int)) is Some,
        r matches Some((v, j)) ==> i <= j <= s@.len() && p_stage_opt(s@.skip(i as int)) == Some(
            (v, s@.skip(j as int)),
        ),
{
    let ghost t = s@.skip(i as int);
    let len = s.unicode_len();
    if i >= len {
        return None;
    }
    let c = s.get_char(i);
    proof {
        assert(t[0] == s@[i as int]);
        assert(t.subrange(1, t.len() as int) =~= s@.skip(i + 1));
    }
    if c == '-' {
        Some((None, i + 1))
    } else if c == 'g' {
        Some((Some(SetupStage::General), i + 1))
    } else if c == 'y' {
        Some((Some(SetupStage::Security), i + 1))
    } else if c == 't' {
        Some((Some(SetupStage::Storage), i + 1))
    } else if c == 'e' {
        Some((Some(SetupStage::ExistingStorage), i + 1))
    } else if c == 'a' {
        Some((Some(SetupStage::AccountCreation), i + 1))
    } else if c == 'f' {
        Some((Some(SetupStage::Finished), i + 1))
    } else {
        None
    }
}

/// Read one MySQL section at character position `i`.
fn d_mysql(s: &str, i: usize) -> (r: Option<(MysqlSettings, usize)>)
    requires
        i <= s@.len(),
    ensures
        r is Some <==> p_mysql(s@.skip(i as int)) is Some,
        r matches Some((m, j)) ==> i <= j <= s@.len() && p_mysql(s@.skip(i as int)) == Some(
            (m@, s@.skip(j as int)),
        ),
{
    let (url, i1) = match d_str(s, i) {
        Some(x) => x,
        None => {
            return None;
        },
    };
    let (port, i2) = match d_u32(s, i1) {
        Some(x) => x,
        None => {
            return None;
        },
    };
    let (username, i3) = match d_str(s, i2) {
        Some(x) => x,
        None => {
            return None;
        },
    };
    let (password, i4) = match d_str(s, i3) {
        Some(x) => x,
        None => {
            return None;
        },
    };
    let (database_name, i5) = match d_str(s, i4) {
        Some(x) => x,
        None => {
            return None;
        },
    };
    Some((MysqlSettings { url, port, username, password, database_name }, i5))
}

/// Read one SQLite section at character position `i`.
fn d_sql(s: &str, i: usize) -> (r: Option<(SqlSettings, usize)>)
    requires
        i <= s@.len(),
    ensures
        r is Some <==> p_sql(s@.skip(i as int)) is Some,
        r matches Some((m, j)) ==> i <= j <= s@.len() && p_sql(s@.skip(i as int)) == Some(
            (m@, s@.skip(j as int)),
        ),
{
    let (file_location, i1) = match d_str(s, i) {
        Some(x) => x,
        None => {
            return None;
        },
    };
    Some((SqlSettings { file_location }, i1))
}

/// Read one PostgreSQL section at character position `i`.
fn d_pg(s: &str, i: usize) -> (r: Option<(PostgreSQLSettings, usize)>)
    requires
        i <= s@.len(),
    ensures
        r is Some <==> p_pg(s@.skip(i as int)) is Some,
        r matches Some((m, j)) ==> i <= j <= s@.len() && p_pg(s@.skip(i as int)) == Some(
            (m@, s@.skip(j as int)),
        ),
{
    let (url, i1) = match d_str(s, i) {
        Some(x) => x,
        None => {
            return None;
        },
    };
    let (port, i2) = match d_u32(s, i1) {
        Some(x) => x,
        None => {
            return None;
        },
    };
    let (username, i3) = match d_str(s, i2) {
        Some(x) => x,
        None => {
            return None;
        },
    };
    let (password, i4) = match d_str(s, i3) {
        Some(x) => x,
        None => {
            return None;
        },
    };
    let (database_name, i5) = match d_str(s, i4) {
        Some(x) => x,
        None => {
            return None;
        },
    };
    Some((PostgreSQLSettings { url, port, username, password, database_name }, i5))
}

/// Read one SSL section at character position `i`.
fn d_ssl(s: &str, i: usize) -> (r: Option<(SSLSettings, usize)>)
    requires
        i <= s@.len(),
    ensures
        r is Some <==> p_ssl(s@.skip(i as int)) is Some,
        r matches Some((m, j)) ==> i <= j <= s@.len() && p_ssl(s@.skip(i as int)) == Some(
            (m@, s@.skip(j as int)),
        ),
{
    let (private_key, i1) = match d_str(s, i) {
        Some(x) => x,
        None => {
            return None;
        },
    };
    let (public_key, i2) = match d_str(s, i1) {
        Some(x) => x,
        None => {
            return None;
        },
    };
    Some((SSLSettings { private_key, public_key }, i2))
}

/// Read one captcha section at character position `i`.
fn d_captcha(s: &str, i: usize) -> (r: Option<(CaptchaSettings, usize)>)
    requires
        i <= s@.len(),
    ensures
        r is Some <==> p_captcha(s@.skip(i as int)) is Some,
        r matches Some((m, j)) ==> i <= j <= s@.len() && p_captcha(s@.skip(i as int)) == Some(
            (m@, s@.skip(j as int)),
        ),
{
    let (site_key, i1) = match d_str(s, i) {
        Some(x) => x,
        None => {
            return None;
        },
    };
    let (secret_key, i2) = match d_str(s, i1) {
        Some(x) => x,
        None => {
            return None;
        },
    };
    Some((CaptchaSettings { site_key, secret_key }, i2))
}

/// Read one optional MySQL section at character position `i`.
fn d_opt_mysql(s: &str, i: usize) -> (r: Option<(Option<MysqlSettings>, usize)>)
    requires
        i <= s@.len(),
    ensures
        r is Some <==> p_opt_mysql(s@.skip(i as int)) is Some,
        r matches Some((o, j)) ==> i <= j <= s@.len() && p_opt_mysql(s@.skip(i as int)) == Some(
            (opt_mysql_view(o), s@.skip(j as int)),
        ),
{
    let ghost t = s@.skip(i as int);
    let len = s.unicode_len();
    if i >= len {
        return None;
    }
    let c = s.get_char(i);
    proof {
        assert(t[0] == s@[i as int]);
        assert(t.subrange(1, t.len() as int) =~= s@.skip(i + 1));
    }
    if c == '-' {
        Some((None, i + 1))
    } else if c == '+' {
        match d_mysql(s, i + 1) {
            None => None,
            Some((m, j)) => Some((Some(m), j)),
        }
    } else {
        None
    }
}

/// Read one optional SQLite section at character position `i`.
fn d_opt_sql(s: &str, i: usize) -> (r: Option<(Option<SqlSettings>, usize)>)
    requires
        i <= s@.len(),
    ensures
        r is Some <==> p_opt_sql(s@.skip(i as int)) is Some,
        r matches Some((o, j)) ==> i <= j <= s@.len() && p_opt_sql(s@.skip(i as int)) == Some(
            (opt_sql_view(o), s@.skip(j as int)),
        ),
{
    let ghost t = s@.skip(i as int);
    let len = s.unicode_len();
    if i >= len {
        return None;
    }
    let c = s.get_char(i);
    proof {
        assert(t[0] == s@[i as int]);
        assert(t.subrange(1, t.len() as int) =~= s@.skip(i + 1));
    }
    if c == '-' {
        Some((None, i + 1))
    } else if c == '+' {
        match d_sql(s, i + 1) {
            None => None,
            Some((m, j)) => Some((Some(m), j)),
        }
    } else {
        None
    }
}

/// Read one optional PostgreSQL section at character position `i`.
fn d_opt_pg(s: &str, i: usize) -> (r: Option<(Option<PostgreSQLSettings>, usize)>)
    requires
        i <= s@.len(),
    ensures
        r is Some <==> p_opt_pg(s@.skip(i as int)) is Some,
        r matches Some((o, j)) ==> i <= j <= s@.len() && p_opt_pg(s@.skip(i as int)) == Some(
            (opt_pg_view(o), s@.skip(j as int)),
        ),
{
    let ghost t = s@.skip(i as int);
    let len = s.unicode_len();
    if i >= len {
        return None;
    }
    let c = s.get_char(i);
    proof {
        assert(t[0] == s@[i as int]);
        assert(t.subrange(1, t.len() as int) =~= s@.skip(i + 1));
    }
    if c == '-' {
        Some((None, i + 1))
    } else if c == '+' {
        match d_pg(s, i + 1) {
            None => None,
            Some((m, j)) => Some((Some(m), j)),
        }
    } else {
        None
    }
}

/// Read one optional SSL section at character position `i`.
fn d_opt_ssl(s: &str, i: usize) -> (r: Option<(Option<SSLSettings>, usize)>)
    requires
        i <= s@.len(),
    ensures
        r is Some <==> p_opt_ssl(s@.skip(i as int)) is Some,
        r matches Some((o, j)) ==> i <= j <= s@.len() && p_opt_ssl(s@.skip(i as int)) == Some(
            (opt_ssl_view(o), s@.skip(j as int)),
        ),
{
    let ghost t = s@.skip(i as int);
    let len = s.unicode_len();
    if i >= len {
        return None;
    }
    let c = s.get_char(i);
    proof {
        assert(t[0] == s@[i as int]);
        assert(t.subrange(1, t.len() as int) =~= s@.skip(i + 1));
    }
    if c == '-' {
        Some((None, i + 1))
    } else if c == '+' {
        match d_ssl(s, i + 1) {
            None => None,
            Some((m, j)) => Some((Some(m), j)),
        }
    } else {
        None
    }
}

/// Read one optional captcha section at character position `i`.
fn d_opt_captcha(s: &str, i: usize) -> (r: Option<(Option<CaptchaSettings>, usize)>)
    requires
        i <= s@.len(),
    ensures
        r is Some <==> p_opt_captcha(s@.skip(i as int)) is Some,
        r matches Some((o, j)) ==> i <= j <= s@.len() && p_opt_captcha(s@.skip(i as int)) == Some(
            (opt_captcha_view(o), s@.skip(j as int)),
        ),
{
    let ghost t = s@.skip(i as int);
    let len = s.unicode_len();
    if i >= len {
        return None;
    }
    let c = s.get_char(i);
    proof {
        assert(t[0] == s@[i as int]);
        assert(t.subrange(1, t.len() as int) =~= s@.skip(i + 1));
    }
    if c == '-' {
        Some((None, i + 1))
    } else if c == '+' {
        match d_captcha(s, i + 1) {
            None => None,
            Some((m, j)) => Some((Some(m), j)),
        }
    } else {
        None
    }
}

/// Decode a configuration record from its on-disk text. Exactly the texts
/// the encoder produces are accepted, and decoding gives back the encoded
/// record, equal in all fields.
#[verifier::rlimit(100)]
pub fn decode_settings(s: &str) -> (r: Option<BaseSettings>)
    ensures
        r is Some <==> spec_decode(s@) is Some,
        r matches Some(b) ==> spec_decode(s@) == Some(b@),
{
    proof {
        assert(s@.skip(0) =~= s@);
    }
    let (name, i1) = match d_str(s, 0) {
        Some(x) => x,
        None => {
            return None;
        },
    };
    let (domain, i2) = match d_str(s, i1) {
        Some(x) => x,
        None => {
            return None;
        },
    };
    let (ip, i3) = match d_str(s, i2) {
        Some(x) => x,
        None => {
            return None;
        },
    };
    let (port, i4) = match d_u32(s, i3) {
        Some(x) => x,
        None => {
            return None;
        },
    };
    let (database_type, i5) = match d_dialect(s, i4) {
        Some(x) => x,
        None => {
            return None;
        },
    };
    let (use_sll, i6) = match d_bool(s, i5) {
        Some(x) => x,
        None => {
            return None;
        },
    };
    let (use_captcha, i7) = match d_bool(s, i6) {
        Some(x) => x,
        None => {
            return None;
        },
    };
    let (new_setup, i8) = match d_bool(s, i7) {
        Some(x) => x,
        None => {
            return None;
        },
    };
    let (setup_stage, i9) = match d_stage_opt(s, i8) {
        Some(x) => x,
        None => {
            return None;
        },
    };
    let (mysql_settings, i10) = match d_opt_mysql(s, i9) {
        Some(x) => x,
        None => {
            return None;
        },
    };
    let (sql_settings, i11) = match d_opt_sql(s, i10) {
        Some(x) => x,
        None => {
            return None;
        },
    };
    let (postgre_settings, i12) = match d_opt_pg(s, i11) {
        Some(x) => x,
        None => {
            return None;
        },
    };
    let (ssl_settings, i13) = match d_opt_ssl(s, i12) {
        Some(x) => x,
        None => {
            return None;
        },
    };
    let (captcha_settings, i14) = match d_opt_captcha(s, i13) {
        Some(x) => x,
        None => {
            return None;
        },
    };
    let len = s.unicode_len();
    if i14 != len {
        return None;
    }
    Some(
        BaseSettings {
            name,
            domain,
            ip,
            port,
            database_type,
            use_sll,
            use_captcha,
            new_setup,
            setup_stage,
            mysql_settings,
            sql_settings,
            postgre_settings,
            ssl_settings,
            captcha_settings,
        },
    )
}

} // verus!
