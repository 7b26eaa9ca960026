//! What the client reads from its configuration files and how it names
//! itself: the account section of the user's configuration, the device
//! identifier, and the device name.

use crate::lines::{
    find_char, first_index, range_is, range_text, split_lines, trim, trim_range,
};
use crate::text::{text_from_chars, to_chars};
use vstd::prelude::*;

verus! {

/// The account that the user's configuration names.
#[derive(Debug)]
pub struct UserConfig {
    pub server: Option<String>,
    pub user: Option<String>,
    pub token: Option<String>,
}

/// The mathematical content of a [`UserConfig`].
pub struct UserConfigView {
    pub server: Option<Seq<char>>,
    pub user: Option<Seq<char>>,
    pub token: Option<Seq<char>>,
}

/// The content of an optional string.
pub open spec fn opt_text(text: Option<String>) -> Option<Seq<char>> {
    match text {
        Some(t) => Some(t@),
        None => None,
    }
}

impl View for UserConfig {
    type V = UserConfigView;

    open spec fn view(&self) -> UserConfigView {
        UserConfigView {
            server: opt_text(self.server),
            user: opt_text(self.user),
            token: opt_text(self.token),
        }
    }
}

/// How far a configuration has been read: whether the current section is the
/// account section, and what has been found.
pub struct Scan {
    pub in_account: bool,
    pub config: UserConfigView,
}

/// The state with the given section flag and account.
pub open spec fn scan_state(in_account: bool, config: UserConfigView) -> Scan {
    Scan { in_account, config }
}

/// The account after an entry `key = value`: the keys `server`, `user` and
/// `token` set their field, and any other key is passed over.
pub open spec fn set_key(
    config: UserConfigView,
    key: Seq<char>,
    value: Seq<char>,
) -> UserConfigView {
    if key == "server"@ {
        UserConfigView { server: Some(value), ..config }
    } else if key == "user"@ {
        UserConfigView { user: Some(value), ..config }
    } else if key == "token"@ {
        UserConfigView { token: Some(value), ..config }
    } else {
        config
    }
}

/// The state after one more line. White space around the line is ignored.
/// `[account]` opens the account section and any other line that begins with
/// `[` closes it. Inside the section a line with `=` is an entry: its key is
/// what stands before the first `=` and its value what stands after, both
/// without the white space around them.
pub open spec fn scan_line(state: Scan, line: Seq<char>) -> Scan {
    let text = trim(line);
    if text == "[account]"@ {
        Scan { in_account: true, config: state.config }
    } else if text.len() > 0 && text[0] == '[' {
        Scan { in_account: false, config: state.config }
    } else if state.in_account {
        match first_index(text, '=') {
            Some(i) => Scan {
                in_account: true,
                config: set_key(state.config, trim(text.take(i)), trim(text.skip(i + 1))),
            },
            None => state,
        }
    } else {
        state
    }
}

/// The state after a list of lines, read in order.
pub open spec fn scan_lines(state: Scan, lines: Seq<Seq<char>>) -> Scan
    decreases lines.len(),
{
    if lines.len() == 0 {
        state
    } else {
        scan_lines(scan_line(state, lines[0]), lines.drop_first())
    }
}

/// The account that a configuration text names.
pub open spec fn user_config_of(content: Seq<char>) -> UserConfigView {
    scan_lines(
        Scan {
            in_account: false,
            config: UserConfigView { server: None, user: None, token: None },
        },
        split_lines(content),
    ).config
}

/// Reads one line of a configuration, see [`scan_line`].
fn read_line(
    chars: &Vec<char>,
    from: usize,
    to: usize,
    in_account: bool,
    config: UserConfig,
) -> (next: (bool, UserConfig))
    requires
        from <= to <= chars@.len(),
    ensures
        scan_state(next.0, next.1@) == scan_line(
            scan_state(in_account, config@),
            chars@.subrange(from as int, to as int),
        ),
{
    let (a, b) = trim_range(chars, from, to);
    let ghost text = chars@.subrange(a as int, b as int);
    if range_is(chars, a, b, "[account]") {
        return (true, config);
    }
    if a < b && chars[a] == '[' {
        assert(text[0] == chars@[a as int]);
        return (false, config);
    }
    assert(!(text.len() > 0 && text[0] == '[')) by {
        if a < b {
            assert(text[0] == chars@[a as int]);
        }
    }
    if !in_account {
        return (false, config);
    }
    let eq = find_char(chars, a, b, '=');
    if eq == b {
        return (true, config);
    }
    let (ka, kb) = trim_range(chars, a, eq);
    let (va, vb) = trim_range(chars, eq + 1, b);
    proof {
        assert(text.take(eq - a) =~= chars@.subrange(a as int, eq as int));
        assert(text.skip(eq - a + 1) =~= chars@.subrange(eq + 1, b as int));
    }
    let mut config = config;
    if range_is(chars, ka, kb, "server") {
        config.server = Some(range_text(chars, va, vb));
    } else if range_is(chars, ka, kb, "user") {
        config.user = Some(range_text(chars, va, vb));
    } else if range_is(chars, ka, kb, "token") {
        config.token = Some(range_text(chars, va, vb));
    }
    (true, config)
}

impl UserConfig {
    /// Reads the account section of a configuration text, see
    /// [`user_config_of`].
    pub fn parse(content: &str) -> (config: UserConfig)
        ensures
            config@ == user_config_of(content@),
    {
        let chars = to_chars(content);
        let ghost all = chars@;
        let ghost start = scan_state(
            false,
            UserConfigView { server: None, user: None, token: None },
        );
        let mut config = UserConfig { server: None, user: None, token: None };
        let mut in_account = false;
        let mut pos: usize = 0;
        let mut done = false;
        assert(all.skip(0) =~= all);
        while !done
            invariant
                all == chars@,
                pos <= all.len(),
                scan_lines(start, split_lines(all)) == if done {
                    scan_state(in_account, config@)
                } else {
                    scan_lines(scan_state(in_account, config@), split_lines(all.skip(pos as int)))
                },
            decreases
                    if done {
                        0
                    } else {
                        all.len() - pos + 1
                    },
        {
            let end = find_char(&chars, pos, chars.len(), '\n');
            let ghost rest = all.skip(pos as int);
            let ghost before = Scan { in_account, config: config@ };
            proof {
                assert(all.subrange(pos as int, all.len() as int) =~= rest);
                assert(all.subrange(pos as int, end as int) =~= rest.take(end - pos));
            }
            let (next_in_account, next_config) = read_line(&chars, pos, end, in_account, config);
            in_account = next_in_account;
            config = next_config;
            let ghost after = Scan { in_account, config: config@ };
            if end == chars.len() {
                proof {
                    assert(rest.take(end - pos) =~= rest);
                    let lines = split_lines(rest);
                    assert(lines =~= seq![rest]);
                    assert(lines.drop_first() =~= Seq::<Seq<char>>::empty());
                    assert(scan_lines(before, lines) == scan_lines(after, lines.drop_first()));
                }
                done = true;
            } else {
                proof {
                    let lines = split_lines(rest);
                    let tail = split_lines(rest.skip(end - pos + 1));
                    assert(lines =~= seq![rest.take(end - pos)] + tail);
                    assert(lines.drop_first() =~= tail);
                    assert(rest.skip(end - pos + 1) =~= all.skip(end + 1));
                    assert(scan_lines(before, lines) == scan_lines(after, lines.drop_first()));
                }
                pos = end + 1;
            }
        }
        config
    }
}

/// Whether a text begins with `prefix`.
pub open spec fn has_prefix(text: Seq<char>, prefix: Seq<char>) -> bool {
    text.len() >= prefix.len() && text.take(prefix.len() as int) == prefix
}

/// The device identifier among the lines of an older configuration: what
/// follows `ID = ` on the first line that begins with it, without the white
/// space around it.
pub open spec fn conf_id(lines: Seq<Seq<char>>) -> Option<Seq<char>>
    decreases lines.len(),
{
    if lines.len() == 0 {
        None
    } else if has_prefix(lines[0], "ID = "@) {
        Some(trim(lines[0].skip("ID = "@.len() as int)))
    } else {
        conf_id(lines.drop_first())
    }
}

/// Looks for the device identifier in the text of an older configuration,
/// see [`conf_id`].
pub fn device_id_from_conf(content: &str) -> (id: Option<String>)
    ensures
        opt_text(id) == conf_id(split_lines(content@)),
{
    let chars = to_chars(content);
    let prefix = to_chars("ID = ");
    let width = prefix.len();
    let ghost all = chars@;
    let mut pos: usize = 0;
    assert(all.skip(0) =~= all);
    loop
        invariant
            all == chars@,
            all == content@,
            width == "ID = "@.len(),
            pos <= all.len(),
            conf_id(split_lines(all)) == conf_id(split_lines(all.skip(pos as int))),
        decreases all.len() - pos,
    {
        let end = find_char(&chars, pos, chars.len(), '\n');
        let ghost rest = all.skip(pos as int);
        let ghost line = rest.take(end - pos);
        proof {
            assert(all.subrange(pos as int, all.len() as int) =~= rest);
            assert(all.subrange(pos as int, end as int) =~= line);
            let lines = split_lines(rest);
            if end == all.len() {
                assert(line =~= rest);
                assert(lines =~= seq![rest]);
                assert(lines.drop_first() =~= Seq::<Seq<char>>::empty());
            } else {
                let tail = split_lines(rest.skip(end - pos + 1));
                assert(lines =~= seq![line] + tail);
                assert(lines.drop_first() =~= tail);
                assert(rest.skip(end - pos + 1) =~= all.skip(end + 1));
            }
            assert(lines[0] == line);
        }
        if end - pos >= width && range_is(&chars, pos, pos + width, "ID = ") {
            proof {
                assert(all.subrange(pos as int, pos + width) =~= line.take(width as int));
                assert(all.subrange(pos + width, end as int) =~= line.skip(width as int));
            }
            let (a, b) = trim_range(&chars, pos + width, end);
            return Some(range_text(&chars, a, b));
        }
        proof {
            if end - pos >= width {
                assert(all.subrange(pos as int, pos + width) =~= line.take(width as int));
            }
        }
        if end == chars.len() {
            proof {
                let lines = split_lines(rest);
                assert(lines.drop_first() =~= Seq::<Seq<char>>::empty());
                assert(conf_id(lines.drop_first()) is None);
            }
            return None;
        }
        pos = end + 1;
    }
}

/// A device identifier as a file holds it: the file's text without the white
/// space around it.
pub fn device_id_from_file(content: &str) -> (id: String)
    ensures
        id@ == trim(content@),
{
    let chars = to_chars(content);
    let (a, b) = trim_range(&chars, 0, chars.len());
    assert(chars@.subrange(0, chars@.len() as int) =~= chars@);
    range_text(&chars, a, b)
}

/// The lower-case hexadecimal digit for a value below sixteen.
pub open spec fn hex_digit(n: int) -> char {
    if n < 10 {
        ((n + 48) as u8) as char
    } else {
        ((n + 87) as u8) as char
    }
}

/// The hexadecimal text of some bytes, two digits for each byte with the high
/// digit first, cut after `size` digits.
pub open spec fn hex_text(bytes: Seq<u8>, size: nat) -> Seq<char> {
    Seq::new(
        size,
        |i: int|
            if i % 2 == 0 {
                hex_digit(bytes[i / 2] as int / 16)
            } else {
                hex_digit(bytes[i / 2] as int % 16)
            },
    )
}

/// The lower-case hexadecimal digit for a value below sixteen.
pub fn hex_char(n: u8) -> (c: char)
    requires
        n < 16,
    ensures
        c == hex_digit(n as int),
{
    if n < 10 {
        (n + 48) as char
    } else {
        (n + 87) as char
    }
}

/// Writes bytes as hexadecimal text of `size` digits, see [`hex_text`].
pub fn hex_id(bytes: &[u8], size: usize) -> (id: String)
    requires
        size <= 2 * bytes@.len(),
    ensures
        id@ == hex_text(bytes@, size as nat),
{
    let mut digits: Vec<char> = Vec::new();
    let mut i: usize = 0;
    while i < size
        invariant
            i <= size <= 2 * bytes@.len(),
            digits@ == hex_text(bytes@, i as nat),
        decreases size - i,
    {
        let byte = bytes[i / 2];
        let digit = if i % 2 == 0 {
            hex_char(byte / 16)
        } else {
            hex_char(byte % 16)
        };
        digits.push(digit);
        assert(digits@ =~= hex_text(bytes@, (i + 1) as nat));
        i += 1;
    }
    text_from_chars(digits.as_slice())
}

/// `RngCore::fill_bytes` on `rand::thread_rng()`: `count` bytes from the
/// thread's random number generator. Only their number is known. The
/// generator gives up where the system has no source of randomness.
#[verifier::external_body]
fn random_bytes(count: usize) -> (bytes: Vec<u8>)
    ensures
        bytes@.len() == count,
{
    let mut bytes = vec![0u8; count];
    rand::RngCore::fill_bytes(&mut rand::thread_rng(), &mut bytes);
    bytes
}

/// A fresh random identifier of `size` hexadecimal digits: the hexadecimal
/// text of as many random bytes as the digits need.
pub fn generate_random_id(size: usize) -> (id: String)
    ensures
        id@.len() == size,
        exists|bytes: Seq<u8>|
            2 * bytes.len() >= size && #[trigger] hex_text(bytes, size as nat) == id@,
{
    let needed = size / 2 + size % 2;
    let bytes = random_bytes(needed);
    hex_id(bytes.as_slice(), size)
}

/// How many hexadecimal digits a device identifier has.
pub const DEVICE_ID_SIZE: usize = 40;

/// Where a device identifier comes from.
#[derive(Debug)]
pub enum DeviceId {
    /// It was stored before and is used as it is.
    Stored(String),
    /// It was found in an older configuration and is to be stored.
    Migrated(String),
    /// It is new and is to be stored.
    Created(String),
}

/// Settles the device identifier from what the files hold: the stored
/// identifier where there is one; else the one of the older configuration,
/// where that names one; else a fresh random one of [`DEVICE_ID_SIZE`]
/// digits.
pub fn resolve_device_id(stored: Option<&str>, older: Option<&str>) -> (id: DeviceId)
    ensures
        match stored {
            Some(text) => id matches DeviceId::Stored(s) && s@ == trim(text@),
            None => match older {
                Some(conf) if conf_id(split_lines(conf@)) is Some => id matches DeviceId::Migrated(
                    s,
                ) && Some(s@) == conf_id(split_lines(conf@)),
                _ => id matches DeviceId::Created(s) && s@.len() == DEVICE_ID_SIZE,
            },
        },
{
    if let Some(text) = stored {
        return DeviceId::Stored(device_id_from_file(text));
    }
    if let Some(conf) = older {
        if let Some(found) = device_id_from_conf(conf) {
            return DeviceId::Migrated(found);
        }
    }
    DeviceId::Created(generate_random_id(DEVICE_ID_SIZE))
}

/// How many characters of the host's name a device name keeps.
pub const DEVICE_NAME_HOST_CHARS: usize = 25;

/// The name under which this device registers: `terminal-` and the first
/// characters of the host's name.
pub open spec fn device_name_of(hostname: Seq<char>) -> Seq<char> {
    "terminal-"@ + if hostname.len() <= DEVICE_NAME_HOST_CHARS {
        hostname
    } else {
        hostname.take(DEVICE_NAME_HOST_CHARS as int)
    }
}

/// The name under which this device registers, see [`device_name_of`].
pub fn device_name(hostname: &str) -> (name: String)
    ensures
        name@ == device_name_of(hostname@),
{
    let chars = to_chars(hostname);
    let keep = if chars.len() <= DEVICE_NAME_HOST_CHARS {
        chars.len()
    } else {
        DEVICE_NAME_HOST_CHARS
    };
    let host = range_text(&chars, 0, keep);
    assert(chars@.subrange(0, keep as int) =~= chars@.take(keep as int));
    assert(chars@.take(chars@.len() as int) =~= chars@);
    let mut name = String::from_str("terminal-");
    name.append(host.as_str());
    name
}

} // verus!
