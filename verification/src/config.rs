//! Where the program keeps its files: the data directory with the database
//! and the assets, and the configuration directory.
use vstd::prelude::*;
use crate::text::owned;

verus! {

/// `base` with the relative path `name` appended, as `Path::join` does on
/// Unix: a `/` goes between them unless `base` is empty or already ends in
/// one.
pub open spec fn path_join(base: Seq<char>, name: Seq<char>) -> Seq<char> {
    if base.len() == 0 || base.last() == '/' {
        base + name
    } else {
        base + seq!['/'] + name
    }
}

/// `base` with the relative path `name` appended.
pub fn join_path(base: &str, name: &str) -> (r: String)
    ensures
        r@ == path_join(base@, name@),
{
    let mut out = owned(base);
    let n = base.unicode_len();
    if n > 0 && base.get_char(n - 1) != '/' {
        proof {
            reveal_strlit("/");
            assert("/"@ =~= seq!['/']);
        }
        out.append("/");
    }
    out.append(name);
    out
}

/// The program's directories and database file.
#[derive(Debug, Clone)]
pub struct Config {
    pub data_dir: String,
    pub db_path: String,
    pub assets_dir: String,
    pub config_dir: String,
}

/// The configuration whose data lives in `data_dir` and whose settings live
/// in `config_dir`: the database is `clips.db` and the assets are `assets`
/// in the data directory.
pub open spec fn config_in(data_dir: Seq<char>, config_dir: Seq<char>) -> (
    Seq<char>,
    Seq<char>,
    Seq<char>,
    Seq<char>,
) {
    (data_dir, path_join(data_dir, "clips.db"@), path_join(data_dir, "assets"@), config_dir)
}

impl Config {
    /// The paths of a configuration, in the order of its fields.
    pub open spec fn paths(&self) -> (Seq<char>, Seq<char>, Seq<char>, Seq<char>) {
        (self.data_dir@, self.db_path@, self.assets_dir@, self.config_dir@)
    }

    fn in_dirs(data_dir: String, config_dir: String) -> (c: Config)
        ensures
            c.paths() == config_in(data_dir@, config_dir@),
    {
        let db_path = join_path(data_dir.as_str(), "clips.db");
        let assets_dir = join_path(data_dir.as_str(), "assets");
        Config { data_dir, db_path, assets_dir, config_dir }
    }

    /// The configuration in the user's data and configuration directories
    /// (`~/.local/share` and `~/.config` when they are not known): a
    /// `clipper` directory in each.
    pub fn in_user_dirs(data_base: Option<String>, config_base: Option<String>) -> (c: Config)
        ensures
            c.paths() == config_in(
                path_join(
                    match data_base {
                        Some(d) => d@,
                        None => "~/.local/share"@,
                    },
                    "clipper"@,
                ),
                path_join(
                    match config_base {
                        Some(d) => d@,
                        None => "~/.config"@,
                    },
                    "clipper"@,
                ),
            ),
    {
        let data_root = match data_base {
            Some(d) => d,
            None => owned("~/.local/share"),
        };
        let config_root = match config_base {
            Some(d) => d,
            None => owned("~/.config"),
        };
        let data_dir = join_path(data_root.as_str(), "clipper");
        let config_dir = join_path(config_root.as_str(), "clipper");
        Self::in_dirs(data_dir, config_dir)
    }

    /// The configuration kept under `base_dir`, for tests and isolated
    /// setups: `share/clipper` for the data and `config/clipper` for the
    /// settings.
    pub fn under(base_dir: &str) -> (c: Config)
        ensures
            c.paths() == config_in(
                path_join(path_join(base_dir@, "share"@), "clipper"@),
                path_join(path_join(base_dir@, "config"@), "clipper"@),
            ),
    {
        let share = join_path(base_dir, "share");
        let data_dir = join_path(share.as_str(), "clipper");
        let conf = join_path(base_dir, "config");
        let config_dir = join_path(conf.as_str(), "clipper");
        Self::in_dirs(data_dir, config_dir)
    }
}

} // verus!
