//! Configuration handling: the configuration value itself, the
//! case-insensitive hex parsing of user-entered device ids, the default
//! configuration text, and the per-platform manager that knows where the
//! configuration file lives.  File reading and writing is outside work.

use vstd::prelude::*;

use crate::platforms::{PathEnv, PathEnvModel};
use crate::strutil::{is_ascii_space, is_space_exec};

verus! {

/// The configuration: the keyboard to talk to, by USB vendor and product
/// id.
#[derive(Clone, Copy, Debug, PartialEq, Eq, Structural)]
pub struct Config {
    pub vendor_id: u16,
    pub product_id: u16,
}

/// The value of one hex digit, case-insensitive; anything else is
/// negative.
pub open spec fn hex_digit_value(c: char) -> int {
    if c == '0' {
        0
    } else if c == '1' {
        1
    } else if c == '2' {
        2
    } else if c == '3' {
        3
    } else if c == '4' {
        4
    } else if c == '5' {
        5
    } else if c == '6' {
        6
    } else if c == '7' {
        7
    } else if c == '8' {
        8
    } else if c == '9' {
        9
    } else if c == 'a' || c == 'A' {
        10
    } else if c == 'b' || c == 'B' {
        11
    } else if c == 'c' || c == 'C' {
        12
    } else if c == 'd' || c == 'D' {
        13
    } else if c == 'e' || c == 'E' {
        14
    } else if c == 'f' || c == 'F' {
        15
    } else {
        -1
    }
}

/// Whether every character is a hex digit.
pub open spec fn all_hex_digits(s: Seq<char>) -> bool {
    forall|i: int| 0 <= i < s.len() ==> hex_digit_value(#[trigger] s[i]) >= 0
}

/// The numeric value of a digit string, most significant first.
pub open spec fn hex_value(s: Seq<char>) -> int
    decreases s.len(),
{
    if s.len() == 0 {
        0
    } else {
        hex_value(s.drop_last()) * 16 + hex_digit_value(s.last())
    }
}

/// How many leading whitespace characters `s` carries.
pub open spec fn trim_start_idx(s: Seq<char>) -> int
    decreases s.len(),
{
    if s.len() > 0 && is_ascii_space(s[0]) {
        1 + trim_start_idx(s.drop_first())
    } else {
        0
    }
}

/// Where the trailing whitespace of `s` begins.
pub open spec fn trim_end_idx(s: Seq<char>) -> int
    decreases s.len(),
{
    if s.len() > 0 && is_ascii_space(s.last()) {
        trim_end_idx(s.drop_last())
    } else {
        s.len() as int
    }
}

/// `s` without leading and trailing ASCII whitespace.
pub open spec fn trim_spec(s: Seq<char>) -> Seq<char> {
    if trim_start_idx(s) <= trim_end_idx(s) {
        s.subrange(trim_start_idx(s), trim_end_idx(s))
    } else {
        Seq::<char>::empty()
    }
}

/// What `trim_start_idx` points at: the first non-whitespace character.
proof fn lemma_trim_start(s: Seq<char>)
    ensures
        0 <= trim_start_idx(s) <= s.len(),
        forall|k: int| 0 <= k < trim_start_idx(s) ==> is_ascii_space(#[trigger] s[k]),
        trim_start_idx(s) < s.len() ==> !is_ascii_space(s[trim_start_idx(s)]),
    decreases s.len(),
{
    if s.len() > 0 && is_ascii_space(s[0]) {
        lemma_trim_start(s.drop_first());
        assert forall|k: int| 0 <= k < trim_start_idx(s) implies is_ascii_space(
            #[trigger] s[k],
        ) by {
            if k > 0 {
                assert(is_ascii_space(s.drop_first()[k - 1]));
            }
        }
        if trim_start_idx(s) < s.len() {
            assert(s.drop_first()[trim_start_idx(s) - 1] == s[trim_start_idx(s)]);
        }
    }
}

/// What `trim_end_idx` points at: just past the last non-whitespace
/// character.
proof fn lemma_trim_end(s: Seq<char>)
    ensures
        0 <= trim_end_idx(s) <= s.len(),
        forall|k: int| trim_end_idx(s) <= k < s.len() ==> is_ascii_space(#[trigger] s[k]),
        trim_end_idx(s) > 0 ==> !is_ascii_space(s[trim_end_idx(s) - 1]),
    decreases s.len(),
{
    if s.len() > 0 && is_ascii_space(s.last()) {
        lemma_trim_end(s.drop_last());
        assert forall|k: int| trim_end_idx(s) <= k < s.len() implies is_ascii_space(
            #[trigger] s[k],
        ) by {
            if k < s.len() - 1 {
                assert(is_ascii_space(s.drop_last()[k]));
            }
        }
        if trim_end_idx(s) > 0 {
            assert(s.drop_last()[trim_end_idx(s) - 1] == s[trim_end_idx(s) - 1]);
        }
    }
}

/// Growing a valid digit string never shrinks its value.
proof fn lemma_hex_prefix_le(s: Seq<char>, k: int)
    requires
        all_hex_digits(s),
        0 <= k <= s.len(),
    ensures
        0 <= hex_value(s.take(k)) <= hex_value(s),
    decreases s.len() - k,
{
    if k == s.len() {
        assert(s.take(k) =~= s);
        lemma_hex_nonneg(s);
    } else {
        lemma_hex_prefix_le(s, k + 1);
        assert(s.take(k + 1).drop_last() =~= s.take(k));
        assert(s.take(k + 1).last() == s[k]);
        lemma_hex_nonneg(s.take(k));
    }
}

/// A valid digit string has a non-negative value.
proof fn lemma_hex_nonneg(s: Seq<char>)
    requires
        all_hex_digits(s),
    ensures
        hex_value(s) >= 0,
    decreases s.len(),
{
    if s.len() > 0 {
        assert(all_hex_digits(s.drop_last())) by {
            assert forall|i: int| 0 <= i < s.len() - 1 implies hex_digit_value(
                #[trigger] s.drop_last()[i],
            ) >= 0 by {
                assert(s.drop_last()[i] == s[i]);
            }
        }
        lemma_hex_nonneg(s.drop_last());
        assert(hex_digit_value(s.last()) >= 0);
    }
}

/// What parsing a hand-typed hex id yields: the input is trimmed of ASCII
/// whitespace, one `0x` or `0X` prefix and one `+` sign are allowed, and
/// the remaining non-empty digit string, read case-insensitively, must
/// fit sixteen bits.
pub open spec fn parse_hex_spec(s: Seq<char>) -> Option<int> {
    let t = trim_spec(s);
    let u0 = if t.len() >= 2 && t[0] == '0' && (t[1] == 'x' || t[1] == 'X') {
        t.skip(2)
    } else {
        t
    };
    let u = if u0.len() >= 1 && u0[0] == '+' {
        u0.skip(1)
    } else {
        u0
    };
    if u.len() > 0 && all_hex_digits(u) && hex_value(u) <= 0xFFFF {
        Some(hex_value(u))
    } else {
        None
    }
}

/// The value of one hex digit character, case-insensitive.
fn hex_digit_val_exec(c: char) -> (r: Option<u16>)
    ensures
        match r {
            Some(v) => hex_digit_value(c) == v as int,
            None => hex_digit_value(c) < 0,
        },
{
    if c == '0' {
        Some(0)
    } else if c == '1' {
        Some(1)
    } else if c == '2' {
        Some(2)
    } else if c == '3' {
        Some(3)
    } else if c == '4' {
        Some(4)
    } else if c == '5' {
        Some(5)
    } else if c == '6' {
        Some(6)
    } else if c == '7' {
        Some(7)
    } else if c == '8' {
        Some(8)
    } else if c == '9' {
        Some(9)
    } else if c == 'a' || c == 'A' {
        Some(10)
    } else if c == 'b' || c == 'B' {
        Some(11)
    } else if c == 'c' || c == 'C' {
        Some(12)
    } else if c == 'd' || c == 'D' {
        Some(13)
    } else if c == 'e' || c == 'E' {
        Some(14)
    } else if c == 'f' || c == 'F' {
        Some(15)
    } else {
        None
    }
}

/// Parses a hand-typed hex id: surrounding whitespace and one `0x`/`0X`
/// prefix are tolerated, the digits are read case-insensitively, and the
/// value must fit sixteen bits.
pub fn parse_hex_value(input: &str) -> (r: Result<u16, String>)
    ensures
        match r {
            Ok(v) => parse_hex_spec(input@) == Some(v as int),
            Err(e) => parse_hex_spec(input@) is None && e@ == "Invalid hex value"@,
        },
{
    let n = input.unicode_len();
    let mut a: usize = 0;
    loop
        invariant
            a <= n,
            n == input@.len(),
            forall|k: int| 0 <= k < a ==> is_ascii_space(#[trigger] input@[k]),
        ensures
            a <= n,
            forall|k: int| 0 <= k < a ==> is_ascii_space(#[trigger] input@[k]),
            a < n ==> !is_ascii_space(input@[a as int]),
            a == trim_start_idx(input@),
        decreases n - a,
    {
        if a < n && is_space_exec(input.get_char(a)) {
            a += 1;
        } else {
            proof {
                lemma_trim_start(input@);
                let t = trim_start_idx(input@);
                assert(!(t < a)) by {
                    if t < a {
                        assert(is_ascii_space(input@[t]));
                    }
                }
                assert(!(a < t)) by {
                    if a < t {
                        assert(is_ascii_space(input@[a as int]));
                    }
                }
            }
            break;
        }
    }
    let mut e: usize = n;
    loop
        invariant
            a <= e <= n,
            n == input@.len(),
            a == trim_start_idx(input@),
            a < n ==> !is_ascii_space(input@[a as int]),
            forall|k: int| 0 <= k < a ==> is_ascii_space(#[trigger] input@[k]),
            forall|k: int| e <= k < n ==> is_ascii_space(#[trigger] input@[k]),
        ensures
            a <= e <= n,
            e == trim_end_idx(input@) || (e == a && trim_end_idx(input@) <= a),
            trim_spec(input@) == input@.subrange(a as int, e as int),
        decreases e,
    {
        if e > a && is_space_exec(input.get_char(e - 1)) {
            e -= 1;
        } else {
            proof {
                lemma_trim_end(input@);
                lemma_trim_start(input@);
                let te = trim_end_idx(input@);
                if e > a {
                    assert(!(te < e)) by {
                        if te < e {
                            assert(is_ascii_space(input@[e - 1]));
                        }
                    }
                    assert(!(e < te)) by {
                        if e < te {
                            assert(is_ascii_space(input@[te - 1]));
                        }
                    }
                } else {
                    assert(e == a);
                    assert(!(te > a)) by {
                        if te > a {
                            assert(!is_ascii_space(input@[te - 1]));
                        }
                    }
                }
                assert(trim_spec(input@) =~= input@.subrange(a as int, e as int));
            }
            break;
        }
    }
    let ghost t = trim_spec(input@);
    let mut p: usize = a;
    if e - p >= 2 && input.get_char(p) == '0' {
        let c1 = input.get_char(p + 1);
        if c1 == 'x' || c1 == 'X' {
            p = p + 2;
        }
    }
    let ghost u0 = if t.len() >= 2 && t[0] == '0' && (t[1] == 'x' || t[1] == 'X') {
        t.skip(2)
    } else {
        t
    };
    proof {
        assert(u0 =~= input@.subrange(p as int, e as int));
    }
    if e - p >= 1 && input.get_char(p) == '+' {
        p = p + 1;
    }
    let ghost u = if u0.len() >= 1 && u0[0] == '+' {
        u0.skip(1)
    } else {
        u0
    };
    proof {
        assert(u =~= input@.subrange(p as int, e as int));
    }
    if p == e {
        return Err("Invalid hex value".to_owned());
    }
    let ghost parse_relation = (parse_hex_spec(input@) == (if u.len() > 0 && all_hex_digits(u)
        && hex_value(u) <= 0xFFFF {
        Some(hex_value(u))
    } else {
        None::<int>
    }));
    proof {
        assert(parse_relation);
    }
    let mut acc: u32 = 0;
    let mut k: usize = p;
    loop
        invariant
            p <= k <= e <= n,
            n == input@.len(),
            u == input@.subrange(p as int, e as int),
            p < e,
            parse_relation,
            parse_relation == (parse_hex_spec(input@) == (if u.len() > 0 && all_hex_digits(u)
                && hex_value(u) <= 0xFFFF {
                Some(hex_value(u))
            } else {
                None::<int>
            })),
            acc <= 0xFFFF,
            acc as int == hex_value(u.take(k - p)),
            forall|i: int|
                0 <= i < k - p ==> hex_digit_value(#[trigger] u[i]) >= 0,
        ensures
            k == e,
            u == input@.subrange(p as int, e as int),
            p < e,
            parse_hex_spec(input@) == (if u.len() > 0 && all_hex_digits(u) && hex_value(u)
                <= 0xFFFF {
                Some(hex_value(u))
            } else {
                None::<int>
            }),
            acc <= 0xFFFF,
            acc as int == hex_value(u),
            all_hex_digits(u),
        decreases e - k,
    {
        if k == e {
            proof {
                assert(u.take(e - p) =~= u);
            }
            break;
        }
        let c = input.get_char(k);
        proof {
            assert(u[k - p] == input@[k as int]);
        }
        match hex_digit_val_exec(c) {
            Option::Some(d) => {
                let next = acc * 16 + d as u32;
                proof {
                    assert(u.take(k - p + 1).drop_last() =~= u.take(k - p));
                    assert(u.take(k - p + 1).last() == u[k - p]);
                }
                if next > 0xFFFF {
                    proof {
                        if all_hex_digits(u) {
                            lemma_hex_prefix_le(u, k - p + 1);
                        }
                    }
                    return Err("Invalid hex value".to_owned());
                }
                acc = next;
            },
            Option::None => {
                proof {
                    assert(!all_hex_digits(u)) by {
                        assert(hex_digit_value(u[k - p]) < 0);
                    }
                }
                return Err("Invalid hex value".to_owned());
            },
        }
        k += 1;
    }
    Ok(acc as u16)
}

/// The configuration text written on first use.
pub fn default_config_content() -> (r: String)
    ensures
        r@
            == "# QMKonnect Configuration\n\n# Your QMK keyboard's vendor ID (in hex)\nvendor_id = 0xfeed\n\n# Your QMK keyboard's product ID (in hex)\nproduct_id = 0x0000\n\n# Add any other configuration options here\n"@,
{
    "# QMKonnect Configuration\n\n# Your QMK keyboard's vendor ID (in hex)\nvendor_id = 0xfeed\n\n# Your QMK keyboard's product ID (in hex)\nproduct_id = 0x0000\n\n# Add any other configuration options here\n".to_owned()
}

/// Picks the first configuration path that exists.  `exists` mirrors
/// `paths` entry for entry, as the file-system probes reported it.
pub fn find_config_file(paths: &Vec<String>, exists: &Vec<bool>) -> (r: Result<String, String>)
    requires
        paths@.len() == exists@.len(),
    ensures
        match r {
            Ok(p) => exists|i: int|
                0 <= i < paths@.len() && exists@[i] && p@ == #[trigger] paths@[i]@ && forall|j: int|
                    0 <= j < i ==> !exists@[j],
            Err(e) => (forall|i: int| 0 <= i < exists@.len() ==> !exists@[i]) && e@
                == "No configuration file found in any of the expected locations"@,
        },
{
    let n = paths.len();
    let mut i: usize = 0;
    while i < n
        invariant
            i <= n,
            n == paths@.len(),
            n == exists@.len(),
            forall|j: int| 0 <= j < i ==> !exists@[j],
        decreases n - i,
    {
        if exists[i] {
            let p = paths[i].clone();
            proof {
                assert(0 <= i < paths@.len() && exists@[i as int] && p@ == paths@[i as int]@
                    && forall|j: int| 0 <= j < i ==> !exists@[j]);
            }
            return Ok(p);
        }
        i += 1;
    }
    Err("No configuration file found in any of the expected locations".to_owned())
}

/// Where the configuration lives on one platform: the candidate files in
/// preference order, and the directory new configuration is created in.
pub trait ConfigManager {
    /// The candidate configuration files, as the contracts see them.
    spec fn spec_config_paths(&self, env: PathEnvModel) -> Seq<Seq<char>>;

    /// The configuration directory, `None` when the environment does not
    /// determine one.
    spec fn spec_config_dir(&self, env: PathEnvModel) -> Option<Seq<char>>;

    /// The candidate configuration files in preference order.
    fn get_config_paths(&self, env: &PathEnv) -> (r: Vec<String>)
        ensures
            r@.map_values(|s: String| s@) == self.spec_config_paths(env@),
    ;

    /// The directory to create the configuration file in.
    fn create_config_dir(&self, env: &PathEnv) -> (r: Result<String, String>)
        ensures
            match r {
                Ok(p) => self.spec_config_dir(env@) == Some(p@),
                Err(_) => self.spec_config_dir(env@) is None,
            },
    ;
}

/// The Linux flavor: XDG paths, with udev-rule updates handled around it.
#[derive(Debug)]
pub struct LinuxConfigManager;

/// The Windows flavor: application-data paths.
#[derive(Debug)]
pub struct WindowsConfigManager;

/// The macOS flavor: no candidate files yet, XDG-style creation.
#[derive(Debug)]
pub struct MacOSConfigManager;

/// The XDG-style configuration directory: the XDG configuration home if
/// set, else `.config` under the home directory.
pub open spec fn xdg_config_dir_spec(env: PathEnvModel) -> Option<Seq<char>> {
    match env.xdg_config_home {
        Some(x) => Some(x + "/qmk-notifier"@),
        None => match env.home {
            Some(h) => Some(h + "/.config/qmk-notifier"@),
            None => None,
        },
    }
}

impl ConfigManager for LinuxConfigManager {
    open spec fn spec_config_paths(&self, env: PathEnvModel) -> Seq<Seq<char>> {
        crate::linux::linux_config_paths_spec(env.xdg_config_home, env.home)
    }

    open spec fn spec_config_dir(&self, env: PathEnvModel) -> Option<Seq<char>> {
        xdg_config_dir_spec(env)
    }

    fn get_config_paths(&self, env: &PathEnv) -> (r: Vec<String>) {
        crate::linux::get_config_paths(
            crate::platforms::as_opt_str(&env.xdg_config_home),
            crate::platforms::as_opt_str(&env.home),
        )
    }

    fn create_config_dir(&self, env: &PathEnv) -> (r: Result<String, String>) {
        crate::linux::config_dir_path(
            crate::platforms::as_opt_str(&env.xdg_config_home),
            crate::platforms::as_opt_str(&env.home),
        )
    }
}

impl ConfigManager for WindowsConfigManager {
    open spec fn spec_config_paths(&self, env: PathEnvModel) -> Seq<Seq<char>> {
        crate::windows::windows_config_paths_spec(env.appdata, env.local_appdata, env.exe_dir)
    }

    open spec fn spec_config_dir(&self, env: PathEnvModel) -> Option<Seq<char>> {
        match env.appdata {
            Some(a) => Some(a + "\\QMKonnect"@),
            None => None,
        }
    }

    fn get_config_paths(&self, env: &PathEnv) -> (r: Vec<String>) {
        crate::windows::get_config_paths(
            crate::platforms::as_opt_str(&env.appdata),
            crate::platforms::as_opt_str(&env.local_appdata),
            crate::platforms::as_opt_str(&env.exe_dir),
        )
    }

    fn create_config_dir(&self, env: &PathEnv) -> (r: Result<String, String>) {
        crate::windows::config_dir_path(crate::platforms::as_opt_str(&env.appdata))
    }
}

impl ConfigManager for MacOSConfigManager {
    open spec fn spec_config_paths(&self, env: PathEnvModel) -> Seq<Seq<char>> {
        Seq::<Seq<char>>::empty()
    }

    open spec fn spec_config_dir(&self, env: PathEnvModel) -> Option<Seq<char>> {
        xdg_config_dir_spec(env)
    }

    fn get_config_paths(&self, env: &PathEnv) -> (r: Vec<String>) {
        let r = Vec::new();
        proof {
            assert(r@.map_values(|s: String| s@) =~= Seq::<Seq<char>>::empty());
        }
        r
    }

    fn create_config_dir(&self, env: &PathEnv) -> (r: Result<String, String>) {
        crate::linux::config_dir_path(
            crate::platforms::as_opt_str(&env.xdg_config_home),
            crate::platforms::as_opt_str(&env.home),
        )
    }
}

/// The configuration manager for whichever platform was selected.
#[derive(Debug)]
pub enum AnyConfigManager {
    Linux(LinuxConfigManager),
    Windows(WindowsConfigManager),
    MacOS(MacOSConfigManager),
}

/// Picks the configuration manager for the platform; an unknown platform
/// gets the XDG-style default.
pub fn create_config_manager(platform: crate::platforms::Platform) -> (r: AnyConfigManager)
    ensures
        match platform {
            crate::platforms::Platform::Windows => r is Windows,
            crate::platforms::Platform::MacOS => r is MacOS,
            _ => r is Linux,
        },
{
    match platform {
        crate::platforms::Platform::Windows => AnyConfigManager::Windows(WindowsConfigManager),
        crate::platforms::Platform::MacOS => AnyConfigManager::MacOS(MacOSConfigManager),
        _ => AnyConfigManager::Linux(LinuxConfigManager),
    }
}

} // verus!
