//! Persisted settings read back from their text form, the server port rules,
//! and the tray menu's labels and commands.
use vstd::prelude::*;

verus! {

/// Port the lyrics server listens on when nothing else is configured.
pub const DEFAULT_SERVER_PORT: u16 = 15000;

/// Lowest port the server may be moved to.
pub const MIN_SERVER_PORT: u16 = 1024;

/// A character with Unicode's White_Space property.
pub open spec fn is_white_space(c: char) -> bool {
    let u = c as u32;
    (0x09 <= u && u <= 0x0d) || u == 0x20 || u == 0x85 || u == 0xa0 || u == 0x1680 || (0x2000
        <= u && u <= 0x200a) || u == 0x2028 || u == 0x2029 || u == 0x202f || u == 0x205f || u
        == 0x3000
}

/// The text without its leading white space.
pub open spec fn trim_start_of(s: Seq<char>) -> Seq<char>
    decreases s.len(),
{
    if s.len() > 0 && is_white_space(s[0]) {
        trim_start_of(s.drop_first())
    } else {
        s
    }
}

/// The text without its trailing white space.
pub open spec fn trim_end_of(s: Seq<char>) -> Seq<char>
    decreases s.len(),
{
    if s.len() > 0 && is_white_space(s.last()) {
        trim_end_of(s.drop_last())
    } else {
        s
    }
}

/// The text without leading and trailing white space.
pub open spec fn trim_of(s: Seq<char>) -> Seq<char> {
    trim_end_of(trim_start_of(s))
}

/// Relies on `str::trim`: the text without leading and trailing white space,
/// white space being the characters with Unicode's White_Space property.
#[verifier::external_body]
fn trimmed(s: &str) -> (r: &str)
    ensures
        r@ == trim_of(s@),
{
    s.trim()
}

/// Whether two texts hold the same characters.
pub fn same_text(a: &str, b: &str) -> (r: bool)
    ensures
        r == (a@ == b@),
{
    let x = a.to_owned();
    let y = b.to_owned();
    x == y
}

/// The interface language named by a trimmed setting: "ko" or "en", and
/// Korean for anything else.
pub open spec fn language_of(t: Seq<char>) -> Seq<char> {
    if t == "ko"@ || t == "en"@ {
        t
    } else {
        "ko"@
    }
}

/// The language for a trimmed setting.
pub fn language_choice(trimmed_text: &str) -> (r: String)
    ensures
        r@ == language_of(trimmed_text@),
{
    if same_text(trimmed_text, "ko") || same_text(trimmed_text, "en") {
        trimmed_text.to_owned()
    } else {
        "ko".to_owned()
    }
}

/// The language stored in the settings file, given its content (`None` when
/// it could not be read). Korean is the default.
pub fn language_from_config(content: Option<&str>) -> (r: String)
    ensures
        r@ == (match content {
            Some(c) => language_of(trim_of(c@)),
            None => "ko"@,
        }),
{
    match content {
        Some(c) => language_choice(trimmed(c)),
        None => "ko".to_owned(),
    }
}

/// Whether a trimmed setting asks to start minimized.
pub fn start_minimized_choice(trimmed_text: &str) -> (r: bool)
    ensures
        r == (trimmed_text@ == "true"@),
{
    same_text(trimmed_text, "true")
}

/// The start-minimized flag stored in the settings file, given its content
/// (`None` when it could not be read). Off by default.
pub fn start_minimized_from_config(content: Option<&str>) -> (r: bool)
    ensures
        r == (match content {
            Some(c) => trim_of(c@) == "true"@,
            None => false,
        }),
{
    match content {
        Some(c) => start_minimized_choice(trimmed(c)),
        None => false,
    }
}

/// The text under which the start-minimized flag is stored.
pub fn start_minimized_text(minimized: bool) -> (r: &'static str)
    ensures
        r@ == (if minimized {
            "true"@
        } else {
            "false"@
        }),
{
    if minimized {
        "true"
    } else {
        "false"
    }
}

pub open spec fn is_digit(c: char) -> bool {
    '0' <= c && c <= '9'
}

/// The number written by decimal digits.
pub open spec fn digits_value(d: Seq<char>) -> int
    decreases d.len(),
{
    if d.len() == 0 {
        0
    } else {
        digits_value(d.drop_last()) * 10 + (d.last() as int - '0' as int)
    }
}

/// The digits of a number, after an optional leading `+`.
pub open spec fn unsigned_digits(s: Seq<char>) -> Seq<char> {
    if s.len() > 0 && s[0] == '+' {
        s.drop_first()
    } else {
        s
    }
}

/// The `u16` a text denotes as `str::parse` reads it: an optional `+`, then one
/// or more decimal digits whose value fits.
pub open spec fn u16_of(s: Seq<char>) -> Option<u16> {
    let d = unsigned_digits(s);
    if d.len() > 0 && (forall|i: int| 0 <= i < d.len() ==> is_digit(#[trigger] d[i]))
        && digits_value(d) <= u16::MAX {
        Some(digits_value(d) as u16)
    } else {
        None
    }
}

proof fn lemma_digits_value_step(d: Seq<char>, k: int)
    requires
        0 <= k < d.len(),
    ensures
        digits_value(d.take(k + 1)) == digits_value(d.take(k)) * 10 + (d[k] as int - '0' as int),
{
    assert(d.take(k + 1).drop_last() =~= d.take(k));
}

proof fn lemma_digits_value_nonneg(d: Seq<char>)
    requires
        forall|i: int| 0 <= i < d.len() ==> is_digit(#[trigger] d[i]),
    ensures
        digits_value(d) >= 0,
    decreases d.len(),
{
    if d.len() > 0 {
        lemma_digits_value_nonneg(d.drop_last());
    }
}

proof fn lemma_digits_value_grows(d: Seq<char>, k: int)
    requires
        0 <= k <= d.len(),
        forall|i: int| 0 <= i < d.len() ==> is_digit(#[trigger] d[i]),
    ensures
        digits_value(d.take(k)) <= digits_value(d),
    decreases d.len() - k,
{
    if k < d.len() {
        lemma_digits_value_step(d, k);
        lemma_digits_value_nonneg(d.take(k));
        lemma_digits_value_grows(d, k + 1);
    } else {
        assert(d.take(k) =~= d);
    }
}

/// Reads a port number as `str::parse::<u16>` does.
pub fn parse_u16(s: &str) -> (r: Option<u16>)
    ensures
        r == u16_of(s@),
{
    let len = s.unicode_len();
    let mut start: usize = 0;
    if len > 0 && s.get_char(0) == '+' {
        start = 1;
    }
    let ghost d = unsigned_digits(s@);
    assert(d =~= s@.subrange(start as int, len as int));
    if start == len {
        return None;
    }
    let mut value: u32 = 0;
    let mut i: usize = start;
    while i < len
        invariant
            start <= i <= len,
            len == s@.len(),
            d =~= s@.subrange(start as int, len as int),
            d == unsigned_digits(s@),
            forall|j: int| 0 <= j < i - start ==> is_digit(#[trigger] d[j]),
            value as int == digits_value(d.take(i - start)),
            value <= u16::MAX,
        decreases len - i,
    {
        let c = s.get_char(i);
        assert(d[i - start] == c);
        if c < '0' || c > '9' {
            assert(!is_digit(d[i - start]));
            return None;
        }
        proof {
            lemma_digits_value_step(d, i - start);
        }
        let next: u32 = value * 10 + (c as u32 - '0' as u32);
        if next > 65535 {
            proof {
                if forall|j: int| 0 <= j < d.len() ==> is_digit(#[trigger] d[j]) {
                    lemma_digits_value_grows(d, i - start + 1);
                }
            }
            return None;
        }
        value = next;
        i = i + 1;
    }
    assert(d.take(len - start) =~= d);
    Some(value as u16)
}

/// A port the server may use: a `u16` of at least 1024.
pub open spec fn usable_port(s: Seq<char>) -> Option<u16> {
    match u16_of(s) {
        Some(p) => if p >= MIN_SERVER_PORT {
            Some(p)
        } else {
            None
        },
        None => None,
    }
}

/// The server port: the environment's value if it names a usable port, else
/// the trimmed settings file's if it does, else the default.
pub open spec fn server_port_of(env_value: Option<Seq<char>>, file_text: Option<Seq<char>>) -> u16 {
    let from_env = match env_value {
        Some(e) => usable_port(e),
        None => None,
    };
    let from_file = match file_text {
        Some(f) => usable_port(f),
        None => None,
    };
    if from_env is Some {
        from_env->0
    } else if from_file is Some {
        from_file->0
    } else {
        DEFAULT_SERVER_PORT
    }
}

fn port_in(text: &str) -> (r: Option<u16>)
    ensures
        r == usable_port(text@),
{
    match parse_u16(text) {
        Some(p) => if p >= MIN_SERVER_PORT {
            Some(p)
        } else {
            None
        },
        None => None,
    }
}

/// The server port from the environment variable's value, as given, and the
/// settings file's content, already trimmed.
pub fn server_port_choice(env_value: Option<&str>, trimmed_file: Option<&str>) -> (r: u16)
    ensures
        r == server_port_of(
            match env_value {
                Some(e) => Some(e@),
                None => None,
            },
            match trimmed_file {
                Some(f) => Some(f@),
                None => None,
            },
        ),
{
    let from_env = match env_value {
        Some(e) => port_in(e),
        None => None,
    };
    match from_env {
        Some(p) => p,
        None => {
            let from_file = match trimmed_file {
                Some(f) => port_in(f),
                None => None,
            };
            match from_file {
                Some(p) => p,
                None => DEFAULT_SERVER_PORT,
            }
        },
    }
}

/// The server port from the environment variable's value and the settings
/// file's content (each `None` when absent or unreadable).
pub fn server_port_from_sources(env_value: Option<&str>, file_content: Option<&str>) -> (r: u16)
    ensures
        r == server_port_of(
            match env_value {
                Some(e) => Some(e@),
                None => None,
            },
            match file_content {
                Some(f) => Some(trim_of(f@)),
                None => None,
            },
        ),
{
    match file_content {
        Some(f) => server_port_choice(env_value, Some(trimmed(f))),
        None => server_port_choice(env_value, None),
    }
}

/// Accepts a new server port, or refuses one below 1024.
pub fn validate_server_port(port: u16) -> (r: Result<u16, String>)
    ensures
        port >= MIN_SERVER_PORT ==> r == Ok::<u16, String>(port),
        port < MIN_SERVER_PORT ==> r is Err && r->Err_0@ == "Port must be >= 1024"@,
{
    if port < MIN_SERVER_PORT {
        Err("Port must be >= 1024".to_owned())
    } else {
        Ok(port)
    }
}

} // verus!
