//! Prompt configuration. A configuration file enables or disables the
//! user, host and working-directory parts of the prompt and the separator
//! characters between them; the prompt itself is regenerated whenever one
//! of those parts changes. Reading the file and querying the system for
//! the user, host and working directory are the caller's concern: this
//! module only parses the file's text and assembles the prompt string.
use vstd::prelude::*;

verus! {

use crate::text::{
    chars_to_string, contains_seq, contains_seq_exec, find_seq, matches_at, str_chars,
};
use vstd::string::{StrSliceExecFns, StringExecFns};

/// The configuration file consulted for the prompt.
pub const RCFILE: &'static str = ".rushrc";

/// The default separator between user and host.
pub const SEPARATOR1: char = '@';

/// The default separator between host and working directory.
pub const SEPARATOR2: char = '>';

/// The default prompt terminator.
pub const END: char = '!';

/// One configurable prompt element: whether it is shown, and the character
/// used for it.
pub struct ConfValues {
    pub enabled: bool,
    pub value: char,
}

impl ConfValues {
    /// An enabled element with a blank character.
    pub fn new() -> (r: ConfValues)
        ensures
            r.enabled,
            r.value == ' ',
    {
        ConfValues { enabled: true, value: ' ' }
    }
}

/// The prompt configuration, beside the latest user, host and working
/// directory it was rendered from.
pub struct Config {
    prompt: String,
    separator1: ConfValues,
    separator2: ConfValues,
    end: ConfValues,
    user: bool,
    host: bool,
    cwd: bool,
    user_name: String,
    host_name: String,
    cwd_path: String,
}

/// Ghost image of `Config`.
pub struct ConfigV {
    pub prompt: Seq<char>,
    pub separator1: ConfValues,
    pub separator2: ConfValues,
    pub end: ConfValues,
    pub user: bool,
    pub host: bool,
    pub cwd: bool,
    pub user_name: Seq<char>,
    pub host_name: Seq<char>,
    pub cwd_path: Seq<char>,
}

impl View for Config {
    type V = ConfigV;

    closed spec fn view(&self) -> ConfigV {
        ConfigV {
            prompt: self.prompt@,
            separator1: self.separator1,
            separator2: self.separator2,
            end: self.end,
            user: self.user,
            host: self.host,
            cwd: self.cwd,
            user_name: self.user_name@,
            host_name: self.host_name@,
            cwd_path: self.cwd_path@,
        }
    }
}

/// The prompt text a configuration renders to: the enabled parts in order —
/// user, first separator, host, second separator, working directory,
/// terminator.
pub open spec fn spec_prompt(c: ConfigV) -> Seq<char> {
    let p1 = if c.user {
        c.user_name
    } else {
        Seq::empty()
    };
    let p2 = if c.separator1.enabled {
        p1.push(c.separator1.value)
    } else {
        p1
    };
    let p3 = if c.host {
        p2 + c.host_name
    } else {
        p2
    };
    let p4 = if c.separator2.enabled {
        p3.push(c.separator2.value)
    } else {
        p3
    };
    let p5 = if c.cwd {
        p4 + c.cwd_path
    } else {
        p4
    };
    if c.end.enabled {
        p5.push(c.end.value)
    } else {
        p5
    }
}

/// Renders the prompt a configuration asks for.
pub fn generate_prompt(config: &Config) -> (r: String)
    ensures
        r@ == spec_prompt(config@),
{
    let mut p: Vec<char> = Vec::new();
    if config.user {
        let mut part = str_chars(config.user_name.as_str());
        p.append(&mut part);
    }
    if config.separator1.enabled {
        p.push(config.separator1.value);
    }
    if config.host {
        let mut part = str_chars(config.host_name.as_str());
        p.append(&mut part);
    }
    if config.separator2.enabled {
        p.push(config.separator2.value);
    }
    if config.cwd {
        let mut part = str_chars(config.cwd_path.as_str());
        p.append(&mut part);
    }
    if config.end.enabled {
        p.push(config.end.value);
    }
    proof {
        assert(p@ =~= spec_prompt(config@));
    }
    chars_to_string(&p)
}

impl Config {
    /// The default configuration: every prompt part enabled, the default
    /// separators, and empty user, host and directory texts.
    pub fn default() -> (r: Config)
        ensures
            r@.prompt == Seq::<char>::empty(),
            r@.user && r@.host && r@.cwd,
            r@.separator1.enabled && r@.separator1.value == SEPARATOR1,
            r@.separator2.enabled && r@.separator2.value == SEPARATOR2,
            r@.end.enabled && r@.end.value == END,
            r@.user_name == Seq::<char>::empty(),
            r@.host_name == Seq::<char>::empty(),
            r@.cwd_path == Seq::<char>::empty(),
    {
        Config {
            prompt: String::new(),
            user: true,
            separator1: ConfValues { enabled: true, value: SEPARATOR1 },
            host: true,
            separator2: ConfValues { enabled: true, value: SEPARATOR2 },
            cwd: true,
            end: ConfValues { enabled: true, value: END },
            user_name: String::new(),
            host_name: String::new(),
            cwd_path: String::new(),
        }
    }

    /// The prompt as most recently generated.
    pub fn prompt(&self) -> (r: &str)
        ensures
            r@ == self@.prompt,
    {
        self.prompt.as_str()
    }

    /// Records a new working directory and regenerates the prompt, when
    /// the working-directory part is enabled; otherwise changes nothing.
    pub fn update_cwd(&mut self, cwd: &str)
        ensures
            !old(self)@.cwd ==> final(self)@ == old(self)@,
            old(self)@.cwd ==> final(self)@ == spec_with_prompt(
                spec_set_cwd(old(self)@, cwd@),
            ),
    {
        if !self.cwd {
            return ;
        }
        self.cwd_path = String::from_str(cwd);
        let p = generate_prompt(self);
        self.prompt = p;
    }

    /// Records a new user name and regenerates the prompt, when the user
    /// part is enabled; otherwise changes nothing.
    pub fn update_user(&mut self, user: &str)
        ensures
            !old(self)@.user ==> final(self)@ == old(self)@,
            old(self)@.user ==> final(self)@ == spec_with_prompt(
                spec_set_user(old(self)@, user@),
            ),
    {
        if !self.user {
            return ;
        }
        self.user_name = String::from_str(user);
        let p = generate_prompt(self);
        self.prompt = p;
    }

    /// Records a new host name and regenerates the prompt, when the host
    /// part is enabled; otherwise changes nothing.
    pub fn update_host(&mut self, host: &str)
        ensures
            !old(self)@.host ==> final(self)@ == old(self)@,
            old(self)@.host ==> final(self)@ == spec_with_prompt(
                spec_set_host(old(self)@, host@),
            ),
    {
        if !self.host {
            return ;
        }
        self.host_name = String::from_str(host);
        let p = generate_prompt(self);
        self.prompt = p;
    }
}

/// `c` with its working-directory text replaced.
pub open spec fn spec_set_cwd(c: ConfigV, cwd: Seq<char>) -> ConfigV {
    ConfigV {
        prompt: c.prompt,
        separator1: c.separator1,
        separator2: c.separator2,
        end: c.end,
        user: c.user,
        host: c.host,
        cwd: c.cwd,
        user_name: c.user_name,
        host_name: c.host_name,
        cwd_path: cwd,
    }
}

/// `c` with its user text replaced.
pub open spec fn spec_set_user(c: ConfigV, user: Seq<char>) -> ConfigV {
    ConfigV {
        prompt: c.prompt,
        separator1: c.separator1,
        separator2: c.separator2,
        end: c.end,
        user: c.user,
        host: c.host,
        cwd: c.cwd,
        user_name: user,
        host_name: c.host_name,
        cwd_path: c.cwd_path,
    }
}

/// `c` with its host text replaced.
pub open spec fn spec_set_host(c: ConfigV, host: Seq<char>) -> ConfigV {
    ConfigV {
        prompt: c.prompt,
        separator1: c.separator1,
        separator2: c.separator2,
        end: c.end,
        user: c.user,
        host: c.host,
        cwd: c.cwd,
        user_name: c.user_name,
        host_name: host,
        cwd_path: c.cwd_path,
    }
}

/// `c` with its prompt regenerated from its parts.
pub open spec fn spec_with_prompt(c: ConfigV) -> ConfigV {
    ConfigV {
        prompt: spec_prompt(c),
        separator1: c.separator1,
        separator2: c.separator2,
        end: c.end,
        user: c.user,
        host: c.host,
        cwd: c.cwd,
        user_name: c.user_name,
        host_name: c.host_name,
        cwd_path: c.cwd_path,
    }
}

/// Whether `c` is the character configured for `pat` in `cfg`: it stands
/// right after the first occurrence of `pat`.
pub open spec fn token_at(cfg: Seq<char>, pat: Seq<char>, c: char) -> bool {
    exists|i: int|
        {
            &&& #[trigger] matches_at(cfg, pat, i)
            &&& forall|j: int| 0 <= j < i ==> !matches_at(cfg, pat, j)
            &&& i + pat.len() < cfg.len()
            &&& c == cfg[i + pat.len()]
        }
}

/// Whether `cfg` configures no character for `pat`: the pattern is absent,
/// or nothing follows its first occurrence.
pub open spec fn no_token(cfg: Seq<char>, pat: Seq<char>) -> bool {
    ||| !contains_seq(cfg, pat)
    ||| exists|i: int|
        {
            &&& #[trigger] matches_at(cfg, pat, i)
            &&& forall|j: int| 0 <= j < i ==> !matches_at(cfg, pat, j)
            &&& i + pat.len() >= cfg.len()
        }
}

/// Reads the configured character for the given pattern: whether the
/// pattern is not explicitly disabled by `<pattern>false`, and, if so, the
/// character standing right after the pattern's first occurrence.
pub fn get_token(config: &str, sep_pattern: &str) -> (r: (bool, Option<char>))
    ensures
        r.0 == !contains_seq(config@, sep_pattern@ + "false"@),
        !r.0 ==> r.1 is None,
        r.0 ==> match r.1 {
            Some(c) => token_at(config@, sep_pattern@, c),
            None => no_token(config@, sep_pattern@),
        },
{
    let cfg = str_chars(config);
    let pat = str_chars(sep_pattern);
    let mut disabled_pat = str_chars(sep_pattern);
    disabled_pat.push('f');
    disabled_pat.push('a');
    disabled_pat.push('l');
    disabled_pat.push('s');
    disabled_pat.push('e');
    proof {
        reveal_strlit("false");
        assert(disabled_pat@ =~= sep_pattern@ + "false"@);
    }
    let enabled = !contains_seq_exec(&cfg, &disabled_pat);
    if !enabled {
        return (false, None);
    }
    let n = cfg.len();
    match find_seq(&cfg, &pat) {
        None => (true, None),
        Some(i) => {
            proof {
                assert(i + pat@.len() <= n);
            }
            if i + pat.len() < n {
                (true, Some(cfg[i + pat.len()]))
            } else {
                (true, None)
            }
        },
    }
}

/// What `get_separator` promises of its result for a given base pattern.
pub open spec fn sep_ok(cfg: Seq<char>, base_pat: Seq<char>, r: ConfValues) -> bool {
    let pat = base_pat + "="@;
    &&& r.enabled == !contains_seq(cfg, pat + "false"@)
    &&& (!r.enabled ==> r.value == SEPARATOR1)
    &&& (r.enabled ==> (token_at(cfg, pat, r.value) || (no_token(cfg, pat) && r.value
        == SEPARATOR1)))
}

/// Reads one separator element: the pattern `<name>=` is looked up, the
/// character after it becomes the separator, and the default separator
/// stands in when the file names none.
pub fn get_separator(config: &str, sep_pattern: &str) -> (r: ConfValues)
    ensures
        sep_ok(config@, sep_pattern@, r),
{
    let mut pat_eq = String::from_str(sep_pattern);
    pat_eq.append("=");
    let (enabled, value) = get_token(config, pat_eq.as_str());
    match value {
        Some(value) => ConfValues { enabled, value },
        None => ConfValues { enabled, value: SEPARATOR1 },
    }
}

/// Parses a configuration file's text: a part is disabled by
/// `<part>=false`, and each separator may be given its character by
/// `<name>=<character>`. The prompt and the recorded user, host and
/// directory texts start empty.
pub fn parse_config_file(config: &str) -> (r: Config)
    ensures
        r@.user == !contains_seq(config@, "user=false"@),
        r@.host == !contains_seq(config@, "host=false"@),
        r@.cwd == !contains_seq(config@, "cwd=false"@),
        sep_ok(config@, "separator1"@, r@.separator1),
        sep_ok(config@, "separator2"@, r@.separator2),
        sep_ok(config@, "end"@, r@.end),
        r@.prompt == Seq::<char>::empty(),
        r@.user_name == Seq::<char>::empty(),
        r@.host_name == Seq::<char>::empty(),
        r@.cwd_path == Seq::<char>::empty(),
{
    let cfg = str_chars(config);
    let user_needle = str_chars("user=false");
    let host_needle = str_chars("host=false");
    let cwd_needle = str_chars("cwd=false");
    let user = !contains_seq_exec(&cfg, &user_needle);
    let host = !contains_seq_exec(&cfg, &host_needle);
    let cwd = !contains_seq_exec(&cfg, &cwd_needle);
    Config {
        prompt: String::new(),
        separator1: get_separator(config, "separator1"),
        separator2: get_separator(config, "separator2"),
        end: get_separator(config, "end"),
        user,
        host,
        cwd,
        user_name: String::new(),
        host_name: String::new(),
        cwd_path: String::new(),
    }
}

/// The working directory as shown in the prompt: inside the home
/// directory it is abbreviated with `~`.
pub open spec fn spec_prettify_cwd(path: Seq<char>, home: Seq<char>) -> Seq<char> {
    if path == home {
        seq!['~']
    } else if home.len() > 0 && path.len() > home.len() && path.take(home.len() as int) == home
        && path[home.len() as int] == '/' {
        seq!['~'] + path.skip(home.len() as int)
    } else {
        path
    }
}

/// Abbreviates a working directory that lies inside the home directory.
pub fn prettify_cwd(path: &str, home: &str) -> (r: String)
    ensures
        r@ == spec_prettify_cwd(path@, home@),
{
    let pc = str_chars(path);
    let hc = str_chars(home);
    if seq_prefix(&pc, &hc) {
        if pc.len() == hc.len() {
            proof {
                assert(pc@.take(hc@.len() as int) =~= pc@);
            }
            let mut r: Vec<char> = Vec::new();
            r.push('~');
            proof {
                assert(r@ =~= seq!['~']);
            }
            return chars_to_string(&r);
        }
        if hc.len() > 0 && pc[hc.len()] == '/' {
            let mut r: Vec<char> = Vec::new();
            r.push('~');
            let mut i: usize = hc.len();
            while i < pc.len()
                invariant
                    hc@.len() <= i <= pc@.len(),
                    r@ == seq!['~'] + pc@.subrange(hc@.len() as int, i as int),
                decreases pc@.len() - i,
            {
                r.push(pc[i]);
                proof {
                    assert(r@ =~= seq!['~'] + pc@.subrange(hc@.len() as int, i as int + 1));
                }
                i += 1;
            }
            proof {
                assert(pc@.subrange(hc@.len() as int, pc@.len() as int) =~= pc@.skip(
                    hc@.len() as int,
                ));
                assert(pc@ != hc@);
            }
            return chars_to_string(&r);
        }
    }
    proof {
        if path@ == home@ {
            assert(pc@.take(hc@.len() as int) =~= hc@);
        }
    }
    String::from_str(path)
}

/// Whether `p` is a prefix of `s`.
fn seq_prefix(s: &Vec<char>, p: &Vec<char>) -> (r: bool)
    ensures
        r == (p@.len() <= s@.len() && s@.take(p@.len() as int) == p@),
{
    if p.len() > s.len() {
        return false;
    }
    let mut i: usize = 0;
    while i < p.len()
        invariant
            p@.len() <= s@.len(),
            i <= p@.len(),
            forall|j: int| 0 <= j < i ==> s@[j] == p@[j],
        decreases p@.len() - i,
    {
        if s[i] != p[i] {
            proof {
                assert(s@.take(p@.len() as int)[i as int] == s@[i as int]);
            }
            return false;
        }
        i += 1;
    }
    proof {
        assert(s@.take(p@.len() as int) =~= p@);
    }
    true
}

} // verus!
