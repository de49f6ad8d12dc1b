use vstd::prelude::*;
use vstd::string::StringExecFns;

use crate::auth::same_text;
use crate::clock::{parse_rfc3339, parsed_instant};
use crate::digest::{hex_encode, hex_lower};
use crate::token::{TokenEntry, TokenFile};

use rand::RngCore;

verus! {

/// The value of a non-empty run of ASCII decimal digits.
pub open spec fn digits_value(s: Seq<char>) -> int
    decreases s.len(),
{
    if s.len() == 0 {
        0
    } else {
        digits_value(s.drop_last()) * 10 + (s.last() as int - '0' as int)
    }
}

/// `s` is one or more ASCII decimal digits.
pub open spec fn all_digits(s: Seq<char>) -> bool {
    s.len() > 0 && forall|i: int| 0 <= i < s.len() ==> '0' <= #[trigger] s[i] <= '9'
}

/// The value of a decimal text with an optional `+` sign.
pub open spec fn unsigned_decimal(s: Seq<char>) -> Option<int> {
    let d = if s.len() > 0 && s[0] == '+' {
        s.skip(1)
    } else {
        s
    };
    if all_digits(d) {
        Some(digits_value(d))
    } else {
        None
    }
}

/// The value of a decimal text with an optional `+` or `-` sign.
pub open spec fn signed_decimal(s: Seq<char>) -> Option<int> {
    if s.len() > 0 && s[0] == '-' {
        if all_digits(s.skip(1)) {
            Some(-digits_value(s.skip(1)))
        } else {
            None
        }
    } else {
        unsigned_decimal(s)
    }
}

/// Relies on `str::parse::<usize>`: an optional `+` and decimal digits,
/// whose value fits.
#[verifier::external_body]
fn parse_usize(s: &str) -> (r: Option<usize>)
    ensures
        match unsigned_decimal(s@) {
            Some(v) => if v <= usize::MAX {
                r == Some(v as usize)
            } else {
                r is None
            },
            None => r is None,
        },
{
    s.parse::<usize>().ok()
}

/// Relies on `str::parse::<i64>`: an optional sign and decimal digits,
/// whose value fits.
#[verifier::external_body]
fn parse_i64(s: &str) -> (r: Option<i64>)
    ensures
        match signed_decimal(s@) {
            Some(v) => if i64::MIN <= v <= i64::MAX {
                r == Some(v as i64)
            } else {
                r is None
            },
            None => r is None,
        },
{
    s.parse::<i64>().ok()
}

/// Why a token command line was refused; the index points into the
/// arguments.
#[derive(Clone, Copy, Debug, PartialEq, Eq, Structural)]
pub enum CliError {
    /// The option at this index needs a value after it.
    MissingValue(usize),
    /// The argument at this index is not an option of the command.
    UnknownArgument(usize),
    /// The value at this index is not a number in range.
    InvalidNumber(usize),
    /// `revoke` names neither a name nor a token.
    MissingSelector,
    /// The expiry is not an RFC 3339 date-time, or lies out of range.
    InvalidExpiry,
}

/// The texts of the arguments.
pub open spec fn arg_texts(args: Seq<String>) -> Seq<Seq<char>> {
    args.map_values(|a: String| a@)
}

/// The characters of an optional owned text.
pub open spec fn owned_view(t: Option<String>) -> Option<Seq<char>> {
    match t {
        Some(s) => Some(s@),
        None => None,
    }
}

/// The options of `token create`.
pub struct CreateOptions {
    pub name: String,
    pub expires_at: Option<String>,
    pub days: Option<i64>,
    pub never_expire: bool,
    pub rate_limit_per_minute: Option<usize>,
    pub tokens_file: Option<String>,
}

/// The options of `token create`, as values.
pub struct CreateView {
    pub name: Seq<char>,
    pub expires_at: Option<Seq<char>>,
    pub days: Option<i64>,
    pub never_expire: bool,
    pub rate_limit_per_minute: Option<usize>,
    pub tokens_file: Option<Seq<char>>,
}

impl View for CreateOptions {
    type V = CreateView;

    open spec fn view(&self) -> CreateView {
        CreateView {
            name: self.name@,
            expires_at: owned_view(self.expires_at),
            days: self.days,
            never_expire: self.never_expire,
            rate_limit_per_minute: self.rate_limit_per_minute,
            tokens_file: owned_view(self.tokens_file),
        }
    }
}

/// The options of `token create` before any argument is read.
pub open spec fn default_create() -> CreateView {
    CreateView {
        name: "default"@,
        expires_at: None,
        days: None,
        never_expire: false,
        rate_limit_per_minute: None,
        tokens_file: None,
    }
}

/// The options of `token create` after reading `args` from index `i` on,
/// starting from `st`.
pub open spec fn create_from(args: Seq<Seq<char>>, i: int, st: CreateView) -> Result<
    CreateView,
    CliError,
>
    decreases args.len() - i,
{
    if i < 0 || i >= args.len() {
        Ok(st)
    } else if args[i] == "--never-expire"@ {
        create_from(args, i + 1, CreateView { never_expire: true, ..st })
    } else if args[i] == "--name"@ || args[i] == "--expires-at"@ || args[i] == "--days"@
        || args[i] == "--rate-limit"@ || args[i] == "--tokens-file"@ {
        if i + 1 >= args.len() {
            Err(CliError::MissingValue(i as usize))
        } else {
            let v = args[i + 1];
            if args[i] == "--name"@ {
                create_from(args, i + 2, CreateView { name: v, ..st })
            } else if args[i] == "--expires-at"@ {
                create_from(args, i + 2, CreateView { expires_at: Some(v), ..st })
            } else if args[i] == "--tokens-file"@ {
                create_from(args, i + 2, CreateView { tokens_file: Some(v), ..st })
            } else if args[i] == "--days"@ {
                match signed_decimal(v) {
                    Some(d) => if i64::MIN <= d <= i64::MAX {
                        create_from(args, i + 2, CreateView { days: Some(d as i64), ..st })
                    } else {
                        Err(CliError::InvalidNumber((i + 1) as usize))
                    },
                    None => Err(CliError::InvalidNumber((i + 1) as usize)),
                }
            } else {
                match unsigned_decimal(v) {
                    Some(n) => if n <= usize::MAX {
                        create_from(
                            args,
                            i + 2,
                            CreateView { rate_limit_per_minute: Some(n as usize), ..st },
                        )
                    } else {
                        Err(CliError::InvalidNumber((i + 1) as usize))
                    },
                    None => Err(CliError::InvalidNumber((i + 1) as usize)),
                }
            }
        }
    } else {
        Err(CliError::UnknownArgument(i as usize))
    }
}

/// Reads the options of `token create` from `args[from..]`.
pub fn parse_create(args: &[String], from: usize) -> (r: Result<CreateOptions, CliError>)
    ensures
        match r {
            Ok(o) => create_from(arg_texts(args@), from as int, default_create()) == Ok::<
                CreateView,
                CliError,
            >(o@),
            Err(e) => create_from(arg_texts(args@), from as int, default_create()) == Err::<
                CreateView,
                CliError,
            >(e),
        },
{
    proof {
        reveal_strlit("default");
    }
    let ghost texts = arg_texts(args@);
    let mut o = CreateOptions {
        name: String::from_str("default"),
        expires_at: None,
        days: None,
        never_expire: false,
        rate_limit_per_minute: None,
        tokens_file: None,
    };
    assert(o@ == default_create());
    let n = args.len();
    let mut i = from;
    while i < n
        invariant
            n == args@.len(),
            texts == arg_texts(args@),
            from <= i,
            create_from(texts, from as int, default_create()) == create_from(texts, i as int, o@),
        decreases n - i,
    {
        let a = args[i].as_str();
        assert(texts[i as int] == a@);
        if same_text(a, "--never-expire") {
            o.never_expire = true;
            i = i + 1;
        } else if same_text(a, "--name") || same_text(a, "--expires-at") || same_text(a, "--days")
            || same_text(a, "--rate-limit") || same_text(a, "--tokens-file") {
            if i + 1 >= n {
                return Err(CliError::MissingValue(i));
            }
            let v = args[i + 1].as_str();
            assert(texts[i + 1] == v@);
            if same_text(a, "--name") {
                o.name = String::from_str(v);
            } else if same_text(a, "--expires-at") {
                o.expires_at = Some(String::from_str(v));
            } else if same_text(a, "--tokens-file") {
                o.tokens_file = Some(String::from_str(v));
            } else if same_text(a, "--days") {
                match parse_i64(v) {
                    Some(d) => o.days = Some(d),
                    None => {
                        return Err(CliError::InvalidNumber(i + 1));
                    },
                }
            } else {
                match parse_usize(v) {
                    Some(k) => o.rate_limit_per_minute = Some(k),
                    None => {
                        return Err(CliError::InvalidNumber(i + 1));
                    },
                }
            }
            i = i + 2;
        } else {
            return Err(CliError::UnknownArgument(i));
        }
    }
    Ok(o)
}

/// The options of `token revoke`.
pub struct RevokeOptions {
    pub by_name: Option<String>,
    pub by_token: Option<String>,
    pub tokens_file: Option<String>,
}

/// The options of `token list` and `token revoke`, as values: the name and
/// the token to revoke by, and the token file.
pub struct SelectView {
    pub by_name: Option<Seq<char>>,
    pub by_token: Option<Seq<char>>,
    pub tokens_file: Option<Seq<char>>,
}

impl View for RevokeOptions {
    type V = SelectView;

    open spec fn view(&self) -> SelectView {
        SelectView {
            by_name: owned_view(self.by_name),
            by_token: owned_view(self.by_token),
            tokens_file: owned_view(self.tokens_file),
        }
    }
}

/// The options after reading `args` from index `i` on, starting from `st`;
/// `--name` and `--token` are options only when `selectors` holds (that is,
/// for `revoke`; `list` takes only `--tokens-file`).
pub open spec fn select_from(args: Seq<Seq<char>>, i: int, st: SelectView, selectors: bool) -> Result<
    SelectView,
    CliError,
>
    decreases args.len() - i,
{
    if i < 0 || i >= args.len() {
        Ok(st)
    } else if args[i] == "--tokens-file"@ || (selectors && (args[i] == "--name"@ || args[i]
        == "--token"@)) {
        if i + 1 >= args.len() {
            Err(CliError::MissingValue(i as usize))
        } else {
            let v = args[i + 1];
            if args[i] == "--tokens-file"@ {
                select_from(args, i + 2, SelectView { tokens_file: Some(v), ..st }, selectors)
            } else if args[i] == "--name"@ {
                select_from(args, i + 2, SelectView { by_name: Some(v), ..st }, selectors)
            } else {
                select_from(args, i + 2, SelectView { by_token: Some(v), ..st }, selectors)
            }
        }
    } else {
        Err(CliError::UnknownArgument(i as usize))
    }
}

/// No option read yet.
pub open spec fn no_selection() -> SelectView {
    SelectView { by_name: None, by_token: None, tokens_file: None }
}

fn parse_select(args: &[String], from: usize, selectors: bool) -> (r: Result<RevokeOptions, CliError>)
    ensures
        match r {
            Ok(o) => select_from(arg_texts(args@), from as int, no_selection(), selectors) == Ok::<
                SelectView,
                CliError,
            >(o@),
            Err(e) => select_from(arg_texts(args@), from as int, no_selection(), selectors)
                == Err::<SelectView, CliError>(e),
        },
{
    let ghost texts = arg_texts(args@);
    let mut o = RevokeOptions { by_name: None, by_token: None, tokens_file: None };
    let n = args.len();
    let mut i = from;
    while i < n
        invariant
            n == args@.len(),
            texts == arg_texts(args@),
            from <= i,
            select_from(texts, from as int, no_selection(), selectors) == select_from(
                texts,
                i as int,
                o@,
                selectors,
            ),
        decreases n - i,
    {
        let a = args[i].as_str();
        assert(texts[i as int] == a@);
        if same_text(a, "--tokens-file") || (selectors && (same_text(a, "--name") || same_text(
            a,
            "--token",
        ))) {
            if i + 1 >= n {
                return Err(CliError::MissingValue(i));
            }
            let v = args[i + 1].as_str();
            assert(texts[i + 1] == v@);
            if same_text(a, "--tokens-file") {
                o.tokens_file = Some(String::from_str(v));
            } else if same_text(a, "--name") {
                o.by_name = Some(String::from_str(v));
            } else {
                o.by_token = Some(String::from_str(v));
            }
            i = i + 2;
        } else {
            return Err(CliError::UnknownArgument(i));
        }
    }
    Ok(o)
}

/// Reads the options of `token list` from `args[from..]`: only
/// `--tokens-file`.
pub fn parse_list(args: &[String], from: usize) -> (r: Result<Option<String>, CliError>)
    ensures
        match r {
            Ok(f) => select_from(arg_texts(args@), from as int, no_selection(), false) == Ok::<
                SelectView,
                CliError,
            >(SelectView { by_name: None, by_token: None, tokens_file: owned_view(f) }),
            Err(e) => select_from(arg_texts(args@), from as int, no_selection(), false) == Err::<
                SelectView,
                CliError,
            >(e),
        },
{
    match parse_select(args, from, false) {
        Ok(o) => {
            proof {
                lemma_list_selects_nothing(arg_texts(args@), from as int, no_selection());
            }
            Ok(o.tokens_file)
        },
        Err(e) => Err(e),
    }
}

proof fn lemma_list_selects_nothing(args: Seq<Seq<char>>, i: int, st: SelectView)
    requires
        select_from(args, i, st, false) is Ok,
    ensures
        select_from(args, i, st, false)->Ok_0.by_name == st.by_name,
        select_from(args, i, st, false)->Ok_0.by_token == st.by_token,
    decreases args.len() - i,
{
    if i < 0 || i >= args.len() {
    } else if args[i] == "--tokens-file"@ && i + 1 < args.len() {
        lemma_list_selects_nothing(args, i + 2, SelectView { tokens_file: Some(args[i + 1]), ..st });
    }
}

/// Reads the options of `token revoke` from `args[from..]`; at least one of
/// `--name` and `--token` must be given.
pub fn parse_revoke(args: &[String], from: usize) -> (r: Result<RevokeOptions, CliError>)
    ensures
        match select_from(arg_texts(args@), from as int, no_selection(), true) {
            Ok(v) => if v.by_name is None && v.by_token is None {
                r == Err::<RevokeOptions, CliError>(CliError::MissingSelector)
            } else {
                r matches Ok(o) && o@ == v
            },
            Err(e) => r == Err::<RevokeOptions, CliError>(e),
        },
{
    match parse_select(args, from, true) {
        Ok(o) => if o.by_name.is_none() && o.by_token.is_none() {
            Err(CliError::MissingSelector)
        } else {
            Ok(o)
        },
        Err(e) => Err(e),
    }
}

/// A token subcommand, read from the command line.
pub enum TokenCommand {
    /// Print the usage text.
    Help,
    Create(CreateOptions),
    /// List the records of the token file (if one is named).
    List(Option<String>),
    Revoke(RevokeOptions),
}

/// Reads a token subcommand from `args` (the words after `token`): an
/// empty or unknown subcommand asks for the usage text.
pub fn token_cli(args: &[String]) -> (r: Result<TokenCommand, CliError>)
    ensures
        args@.len() == 0 ==> r matches Ok(TokenCommand::Help),
        args@.len() > 0 && args@[0]@ == "create"@ ==> match create_from(
            arg_texts(args@),
            1,
            default_create(),
        ) {
            Ok(v) => r matches Ok(TokenCommand::Create(o)) && o@ == v,
            Err(e) => r == Err::<TokenCommand, CliError>(e),
        },
        args@.len() > 0 && args@[0]@ == "list"@ ==> match select_from(
            arg_texts(args@),
            1,
            no_selection(),
            false,
        ) {
            Ok(v) => r matches Ok(TokenCommand::List(f)) && owned_view(f) == v.tokens_file,
            Err(e) => r == Err::<TokenCommand, CliError>(e),
        },
        args@.len() > 0 && args@[0]@ == "revoke"@ ==> match select_from(
            arg_texts(args@),
            1,
            no_selection(),
            true,
        ) {
            Ok(v) => if v.by_name is None && v.by_token is None {
                r == Err::<TokenCommand, CliError>(CliError::MissingSelector)
            } else {
                r matches Ok(TokenCommand::Revoke(o)) && o@ == v
            },
            Err(e) => r == Err::<TokenCommand, CliError>(e),
        },
        args@.len() > 0 && args@[0]@ != "create"@ && args@[0]@ != "list"@ && args@[0]@
            != "revoke"@ ==> r matches Ok(TokenCommand::Help),
{
    proof {
        reveal_strlit("create");
        reveal_strlit("list");
        reveal_strlit("revoke");
    }
    if args.len() == 0 {
        return Ok(TokenCommand::Help);
    }
    let sub = args[0].as_str();
    assert("create"@.len() == 6 && "list"@.len() == 4 && "revoke"@.len() == 6);
    assert("create"@[0] != "revoke"@[0]);
    if same_text(sub, "create") {
        match parse_create(args, 1) {
            Ok(o) => Ok(TokenCommand::Create(o)),
            Err(e) => Err(e),
        }
    } else if same_text(sub, "list") {
        match parse_list(args, 1) {
            Ok(f) => Ok(TokenCommand::List(f)),
            Err(e) => Err(e),
        }
    } else if same_text(sub, "revoke") {
        match parse_revoke(args, 1) {
            Ok(o) => Ok(TokenCommand::Revoke(o)),
            Err(e) => Err(e),
        }
    } else {
        Ok(TokenCommand::Help)
    }
}

/// Relies on `chrono::Utc::now`, `chrono::TimeDelta::try_days`,
/// `DateTime::checked_add_signed` and `DateTime::to_rfc3339`: the RFC 3339
/// text of the instant `days` days from now, or `None` out of range.
#[verifier::external_body]
fn expiry_after_days(days: i64) -> (r: Option<String>) {
    match chrono::TimeDelta::try_days(days) {
        Some(d) => chrono::Utc::now().checked_add_signed(d).map(|t| t.to_rfc3339()),
        None => None,
    }
}

/// The expiry that `token create` records: none with `--never-expire`;
/// else, with `--days`, that many days from now; else the `--expires-at`
/// text, which must read as an RFC 3339 date-time.
pub fn resolve_expiry(o: &CreateOptions) -> (r: Result<Option<String>, CliError>)
    ensures
        o.never_expire ==> r == Ok::<Option<String>, CliError>(None),
        !o.never_expire && o.days is None ==> match o.expires_at {
            None => r == Ok::<Option<String>, CliError>(None),
            Some(s) => if parsed_instant(s@) is Some {
                r matches Ok(Some(t)) && t@ == s@
            } else {
                r == Err::<Option<String>, CliError>(CliError::InvalidExpiry)
            },
        },
        !o.never_expire && o.days is Some ==> (r matches Ok(Some(_)) || r == Err::<
            Option<String>,
            CliError,
        >(CliError::InvalidExpiry)),
        r matches Ok(Some(t)) ==> parsed_instant(t@) is Some,
{
    if o.never_expire {
        return Ok(None);
    }
    match o.days {
        Some(d) => match expiry_after_days(d) {
            Some(t) => match parse_rfc3339(t.as_str()) {
                Some(_) => Ok(Some(t)),
                None => Err(CliError::InvalidExpiry),
            },
            None => Err(CliError::InvalidExpiry),
        },
        None => match &o.expires_at {
            None => Ok(None),
            Some(s) => match parse_rfc3339(s.as_str()) {
                Some(_) => Ok(Some(s.clone())),
                None => Err(CliError::InvalidExpiry),
            },
        },
    }
}

/// Relies on `rand::thread_rng` and `RngCore::fill_bytes`: 24 random bytes.
#[verifier::external_body]
fn random_secret_bytes() -> (r: Vec<u8>)
    ensures
        r@.len() == 24,
{
    let mut bytes = [0u8; 24];
    rand::thread_rng().fill_bytes(&mut bytes);
    bytes.to_vec()
}

/// A fresh secret token: 24 random bytes in lower-case hex.
pub fn generate_token() -> (r: String)
    ensures
        exists|b: Seq<u8>| b.len() == 24 && r@ == hex_lower(b),
{
    let b = random_secret_bytes();
    hex_encode(b.as_slice())
}

/// A record goes when its name is the name to revoke by, or its token the
/// token to revoke by.
pub open spec fn is_revoked(e: TokenEntry, by_name: Option<Seq<char>>, by_token: Option<
    Seq<char>,
>) -> bool {
    (by_name is Some && e.name@ == by_name->0) || (by_token is Some && e.token@ == by_token->0)
}

/// The records that stay, in their order.
pub open spec fn kept_entries(es: Seq<TokenEntry>, by_name: Option<Seq<char>>, by_token: Option<
    Seq<char>,
>) -> Seq<TokenEntry>
    decreases es.len(),
{
    if es.len() == 0 {
        Seq::empty()
    } else {
        let k = kept_entries(es.drop_last(), by_name, by_token);
        if is_revoked(es.last(), by_name, by_token) {
            k
        } else {
            k.push(es.last())
        }
    }
}

/// Removes from the token file every record that matches the name or the
/// token to revoke by, keeping the others in order; returns how many went.
pub fn revoke_entries(file: &mut TokenFile, by_name: Option<&str>, by_token: Option<&str>) -> (r:
    usize)
    ensures
        final(file).tokens@ == kept_entries(
            old(file).tokens@,
            crate::token::text_view(by_name),
            crate::token::text_view(by_token),
        ),
        r == old(file).tokens@.len() - final(file).tokens@.len(),
{
    let ghost orig = file.tokens@;
    let ghost bn = crate::token::text_view(by_name);
    let ghost bt = crate::token::text_view(by_token);
    let mut i: usize = 0;
    let mut k: usize = 0;
    let n = file.tokens.len();
    while k < n
        invariant
            n == orig.len(),
            bn == crate::token::text_view(by_name),
            bt == crate::token::text_view(by_token),
            k <= n,
            i == kept_entries(orig.take(k as int), bn, bt).len(),
            i <= k,
            file.tokens@ == kept_entries(orig.take(k as int), bn, bt) + orig.skip(k as int),
        decreases n - k,
    {
        proof {
            assert(orig.take(k as int + 1).drop_last() =~= orig.take(k as int));
            assert(file.tokens@[i as int] == orig[k as int]);
            assert(orig.take(k as int + 1).last() == orig[k as int]);
            assert(orig.skip(k as int) =~= seq![orig[k as int]] + orig.skip(k as int + 1));
        }
        let drop = {
            let e = &file.tokens[i];
            assert(*e == orig[k as int]);
            let by_n = match by_name {
                Some(nm) => same_text(e.name.as_str(), nm),
                None => false,
            };
            let by_t = match by_token {
                Some(tk) => same_text(e.token.as_str(), tk),
                None => false,
            };
            by_n || by_t
        };
        assert(drop == is_revoked(orig[k as int], bn, bt));
        if drop {
            file.tokens.remove(i);
            assert(file.tokens@ =~= kept_entries(orig.take(k as int + 1), bn, bt) + orig.skip(
                k as int + 1,
            ));
        } else {
            i = i + 1;
            assert(file.tokens@ =~= kept_entries(orig.take(k as int + 1), bn, bt) + orig.skip(
                k as int + 1,
            ));
        }
        k = k + 1;
    }
    assert(orig.take(n as int) =~= orig);
    assert(orig.skip(n as int) =~= Seq::<TokenEntry>::empty());
    assert(file.tokens@ =~= kept_entries(orig, bn, bt));
    n - i
}

} // verus!
