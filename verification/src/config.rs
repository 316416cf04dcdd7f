use vstd::prelude::*;

verus! {

/// The settings read from the configuration file.
pub struct Config {
    /// Where the music library lives.
    pub music_path: String,
}

/// `part` appended to the path `base` as a path component: with a `/`
/// between them unless `base` is empty or already ends with one.
pub open spec fn join_path(base: Seq<char>, part: Seq<char>) -> Seq<char> {
    if base.len() == 0 {
        part
    } else if base.last() == '/' {
        base + part
    } else {
        base + seq!['/'] + part
    }
}

impl Config {
    /// The settings used when there is no configuration file: the `Music`
    /// directory in the home directory `home`.
    pub fn default_for_home(home: &str) -> (r: Config)
        ensures
            r.music_path@ == join_path(home@, "Music"@),
    {
        let n = home.unicode_len();
        let mut path = String::from_str(home);
        if n > 0 && home.get_char(n - 1) != '/' {
            path.append("/");
            proof {
                reveal_strlit("/");
            }
        }
        path.append("Music");
        proof {
            if n > 0 {
                assert(home@.last() == home@[n - 1]);
            }
        }
        Config { music_path: path }
    }
}

/// The settings in force: those parsed from the configuration file, or the
/// defaults for the home directory `home` when there are none.
pub fn config_init(home: &str, parsed: Option<Config>) -> (r: Config)
    ensures
        r.music_path@ == match parsed {
            Some(c) => c.music_path@,
            None => join_path(home@, "Music"@),
        },
{
    match parsed {
        Some(c) => c,
        None => Config::default_for_home(home),
    }
}

} // verus!
