//! The calls into `sqlx`, `url`, `rand` and the formatting of the standard library, with what is
//! taken for granted about each of them.

use crate::duration::NANOS_PER_SEC;
use crate::url_text;
use sqlx::postgres::PgConnectOptions;
use vstd::prelude::*;

verus! {

/// The error type of `sqlx`, whose values are carried along and never looked into.
#[verifier::external_type_specification]
#[verifier::external_body]
pub struct ExSqlxError(sqlx::Error);

/// The connection options of `sqlx`, whose values are carried along and never looked into.
#[verifier::external_type_specification]
#[verifier::external_body]
pub struct ExPgConnectOptions(sqlx::postgres::PgConnectOptions);

/// The error type of the parser in `url`, whose values are carried along and never looked into.
#[verifier::external_type_specification]
#[verifier::external_body]
pub struct ExUrlParseError(url::ParseError);

/// What `url::Url::parse` makes of `text`: the normalised text of the URL, or an error.
pub uninterp spec fn parsed_url(text: Seq<char>) -> Result<Seq<char>, url::ParseError>;

/// What `url::Url::path` returns for the URL that `text` is parsed to.
pub uninterp spec fn url_path(text: Seq<char>) -> Seq<char>;

/// The normalised text of the URL that `text` is parsed to, once `url::Url::set_path` has been
/// called on it with `path`.
pub uninterp spec fn url_with_path(text: Seq<char>, path: Seq<char>) -> Seq<char>;

/// Whether a URL whose normalised text is `url` stays within the size that `url` supports when
/// its path is replaced by `path`. A character takes up twelve bytes at most: four bytes of
/// UTF-8, each written as `%` and two digits.
pub open spec fn fits_with_path(url: Seq<char>, path: Seq<char>) -> bool {
    url.len() + 12 * path.len() + 16 <= u32::MAX
}

/// Whether `url` is what the URL `text` becomes when its path is replaced by the plain name `path`:
/// the normalised text of the URL, with nothing but the path changed. Unless the host is encoded,
/// `path` is also read out of `url` again.
pub open spec fn has_path_replaced(text: Seq<char>, path: Seq<char>, url: Seq<char>) -> bool {
    let before = parsed_url(text)->Ok_0;
    url_text::has_authority(before) && url_text::is_plain_name(path) ==> {
        &&& url == url_text::with_name(before, path)
        &&& url_text::has_literal_host(before) && url_text::is_countable(url) ==> {
            &&& parsed_url(url) is Ok
            &&& url_path(url) == url_text::path_for(before, path)
        }
    }
}

/// `url::Url::parse`, which depends on `text` alone. The contract gives its result the name
/// `parsed_url`. It says besides that a text with an authority keeps it and its scheme, and that
/// the path of a URL whose normalised text has an authority is what stands there between the
/// authority and the query or the fragment. Texts whose characters the parser cannot count are
/// left out.
#[verifier::external_body]
pub(crate) fn parse_url(text: &str) -> (result: Result<String, url::ParseError>)
    requires
        url_text::is_countable(text@),
    ensures
        match result {
            Ok(url) => {
                &&& parsed_url(text@) == Ok::<Seq<char>, url::ParseError>(url@)
                &&& url_text::has_authority(text@) ==> {
                    &&& url_text::has_authority(url@)
                    &&& url_text::scheme(url@) == url_text::scheme(text@)
                }
                &&& url_text::has_authority(url@) ==> url_path(text@) == url_text::path_part(url@)
            },
            Err(error) => parsed_url(text@) == Err::<Seq<char>, url::ParseError>(error),
        },
{
    url::Url::parse(text).map(String::from)
}

/// `url::Url::path`, which depends on the URL alone. The contract gives its result the name
/// `url_path`.
#[verifier::external_body]
pub(crate) fn path_of_url(text: &str) -> (path: String)
    requires
        url_text::is_countable(text@),
        parsed_url(text@) is Ok,
    ensures
        path@ == url_path(text@),
{
    url::Url::parse(text).unwrap().path().to_owned()
}

/// `url::Url::set_path`, which depends on the URL and the path alone. The contract gives the text
/// of the changed URL the name `url_with_path`. It says besides that a path of letters, digits
/// and hyphens is put into a URL with an authority behind a slash, with the rest of the URL as it
/// was, and that it is read out of the changed URL again. An empty path leaves the URL without a
/// path, or with a slash alone if its scheme is special. That the path is read out again is not
/// said of special schemes whose host is encoded: it rests on how the host is decoded and encoded
/// once more.
#[verifier::external_body]
pub(crate) fn replace_path_of_url(text: &str, path: &str) -> (url: String)
    requires
        url_text::is_countable(text@),
        parsed_url(text@) is Ok,
        fits_with_path(parsed_url(text@)->Ok_0, path@),
    ensures
        url@ == url_with_path(text@, path@),
        has_path_replaced(text@, path@, url@),
{
    let mut url = url::Url::parse(text).unwrap();
    url.set_path(path);
    String::from(url)
}

/// What `PgConnectOptions::from_str` makes of `url`: the values that it can return, or an error.
/// Which of these values it returns depends on the environment variables and the password file
/// that supply what the URL leaves open. `usize_max` is the greatest `usize`, which bounds the
/// capacity of the statement cache that a URL can ask for.
pub uninterp spec fn connect_options_of(url: Seq<char>, usize_max: nat) -> Result<
    Set<PgConnectOptions>,
    sqlx::Error,
>;

/// What `PgConnectOptions::options` returns for `options` and the single pair of `key` and
/// `value`.
pub uninterp spec fn with_startup_option(
    options: PgConnectOptions,
    key: Seq<char>,
    value: Seq<char>,
) -> PgConnectOptions;

/// The options that `options` sends to the server when a connection starts, as
/// `PgConnectOptions::get_options` returns them.
pub uninterp spec fn startup_options(options: PgConnectOptions) -> Option<Seq<char>>;

/// `PgConnectOptions::from_str`. Whether it succeeds, and with which error it fails, depends on the
/// URL alone: the contract gives this, with the values that it can return, the name
/// `connect_options_of`. It fails on what `url::Url::parse` refuses, and succeeds on every other
/// text without a query and without percent-encoded bytes. What the environment adds to the
/// options is not described. Texts whose characters the parser of URLs cannot count are left out.
#[verifier::external_body]
pub(crate) fn parse_connect_options(url: &str) -> (result: Result<PgConnectOptions, sqlx::Error>)
    requires
        url_text::is_countable(url@),
    ensures
        match result {
            Ok(options) => {
                &&& connect_options_of(url@, usize::MAX as nat) is Ok
                &&& connect_options_of(url@, usize::MAX as nat)->Ok_0.contains(options)
            },
            Err(error) => connect_options_of(url@, usize::MAX as nat) == Err::<
                Set<PgConnectOptions>,
                sqlx::Error,
            >(error),
        },
        parsed_url(url@) is Err ==> result is Err,
        parsed_url(url@) is Ok && !url@.contains('?') && !url@.contains('%') ==> result is Ok,
{
    url.parse()
}

/// `PgConnectOptions::options` with a single pair, which depends on its arguments alone. The
/// contract gives its result the name `with_startup_option` and says that `-c`, a space, the key,
/// an equals sign and the value are put behind the options that were there, with a space between
/// unless these were empty.
#[verifier::external_body]
pub(crate) fn add_startup_option(options: PgConnectOptions, key: &str, value: &str) -> (result:
    PgConnectOptions)
    ensures
        result == with_startup_option(options, key@, value@),
        startup_options(result) == Some(
            appended_option(startup_options(options), key@, value@),
        ),
{
    options.options([(key, value)])
}

/// Startup options with one more setting behind them.
pub open spec fn appended_option(
    options: Option<Seq<char>>,
    key: Seq<char>,
    value: Seq<char>,
) -> Seq<char> {
    let setting = "-c "@ + key + "="@ + value;
    match options {
        Some(options) if options.len() > 0 => options + " "@ + setting,
        _ => setting,
    }
}

/// `Rng::gen` of `rand` on the generator of the current thread. Nothing is claimed of the number:
/// it is random.
#[verifier::external_body]
pub(crate) fn random_u64() -> u64 {
    rand::Rng::gen(&mut rand::thread_rng())
}

/// The text of a span of `secs` seconds and `nanos` nanoseconds, as the `Debug` of
/// `std::time::Duration` writes it.
pub uninterp spec fn duration_text(secs: nat, nanos: nat) -> Seq<char>;

/// The `Debug` of `std::time::Duration`, which depends on the span alone. The contract gives its
/// text the name `duration_text`.
#[verifier::external_body]
pub(crate) fn duration_string(secs: u64, nanos: u32) -> (text: String)
    requires
        nanos < NANOS_PER_SEC,
    ensures
        text@ == duration_text(secs as nat, nanos as nat),
{
    format!("{:?}", std::time::Duration::new(secs, nanos))
}

} // verus!
