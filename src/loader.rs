//! Loading media: what may be loaded, where to look for it, and how the
//! player is started.
use vstd::prelude::*;
use crate::config::PlayerConfig;
use crate::room::PRIVACY_HIDDEN_FILENAME;
use crate::session::SuppressionFlags;
use crate::text::{strings_view, to_owned_text, trim, trim_text};
use crate::trust::{is_url, is_url_allowed, is_url_spec, url_allowed};

verus! {

/// Why a name cannot be loaded.
#[derive(Debug, Clone, Copy, PartialEq, Eq, Structural)]
pub enum LoadError {
    /// A URL whose host is not trusted.
    UntrustedUrl,
    /// A name that was hidden for privacy, so no file can match it.
    FileNotFound,
}

/// What to hand to the player.
#[derive(Debug, Clone, Copy, PartialEq, Eq, Structural)]
pub enum LoadTarget {
    /// Load the URL as given.
    Url,
    /// Look the name up in the media directories.
    File,
}

/// Decides how a name from the server or the playlist is loaded.
pub fn plan_load(name: &str, trusted_domains: &Vec<String>, enforce: bool) -> (r: Result<
    LoadTarget,
    LoadError,
>)
    ensures
        is_url_spec(name@) && url_allowed(name@, strings_view(trusted_domains@), enforce) ==> r
            == Ok::<LoadTarget, LoadError>(LoadTarget::Url),
        is_url_spec(name@) && !url_allowed(name@, strings_view(trusted_domains@), enforce) ==> r
            == Err::<LoadTarget, LoadError>(LoadError::UntrustedUrl),
        !is_url_spec(name@) && name@ == PRIVACY_HIDDEN_FILENAME@ ==> r == Err::<
            LoadTarget,
            LoadError,
        >(LoadError::FileNotFound),
        !is_url_spec(name@) && name@ != PRIVACY_HIDDEN_FILENAME@ ==> r == Ok::<
            LoadTarget,
            LoadError,
        >(LoadTarget::File),
{
    if is_url(name) {
        if is_url_allowed(name, trusted_domains, enforce) {
            Ok(LoadTarget::Url)
        } else {
            Err(LoadError::UntrustedUrl)
        }
    } else if to_owned_text(name) == to_owned_text(PRIVACY_HIDDEN_FILENAME) {
        Err(LoadError::FileNotFound)
    } else {
        Ok(LoadTarget::File)
    }
}

/// The media directories worth searching: trimmed, blanks dropped, in order.
pub open spec fn search_dirs(dirs: Seq<Seq<char>>) -> Seq<Seq<char>>
    decreases dirs.len(),
{
    if dirs.len() == 0 {
        Seq::empty()
    } else {
        let rest = search_dirs(dirs.drop_last());
        if trim(dirs.last()).len() == 0 {
            rest
        } else {
            rest.push(trim(dirs.last()))
        }
    }
}

pub fn media_search_dirs(dirs: &Vec<String>) -> (r: Vec<String>)
    ensures
        strings_view(r@) == search_dirs(strings_view(dirs@)),
{
    let ghost v = strings_view(dirs@);
    let mut out: Vec<String> = Vec::new();
    let mut i: usize = 0;
    while i < dirs.len()
        invariant
            i <= dirs@.len(),
            v == strings_view(dirs@),
            strings_view(out@) == search_dirs(v.subrange(0, i as int)),
        decreases dirs@.len() - i,
    {
        proof {
            assert(v.subrange(0, i + 1).drop_last() =~= v.subrange(0, i as int));
            assert(v.subrange(0, i + 1).last() == dirs@[i as int]@);
        }
        let t = trim_text(dirs[i].as_str());
        if t.as_str().unicode_len() > 0 {
            proof {
                assert(strings_view(out@.push(t)) =~= strings_view(out@).push(t@));
            }
            out.push(t);
        }
        i = i + 1;
    }
    proof {
        assert(v.subrange(0, dirs@.len() as int) =~= v);
    }
    out
}

/// After a load: announce the file to the server, or let the state pump
/// skip its next file update. Returns whether to announce.
pub fn after_load(flags: &mut SuppressionFlags, send_update: bool) -> (r: bool)
    ensures
        r == send_update,
        send_update ==> *final(flags) == *old(flags),
        !send_update ==> final(flags).next_file_update && final(flags).unpause_check == old(
            flags,
        ).unpause_check,
{
    if !send_update {
        flags.suppress_next_file_update();
    }
    send_update
}

/// The player executable: the configured path, trimmed, or `mpv` when it
/// is blank or `custom`.
pub open spec fn player_path_of(configured: Seq<char>) -> Seq<char> {
    let t = trim(configured);
    if t.len() == 0 || t == "custom"@ {
        "mpv"@
    } else {
        t
    }
}

pub fn resolve_player_path(configured: &str) -> (r: String)
    ensures
        r@ == player_path_of(configured@),
{
    let t = trim_text(configured);
    if t.as_str().unicode_len() == 0 || t == to_owned_text("custom") {
        to_owned_text("mpv")
    } else {
        t
    }
}

/// The arguments for a player: the general ones, then those configured for
/// this player path (the first matching entry).
pub open spec fn player_args_of(general: Seq<Seq<char>>, per: Seq<(Seq<char>, Seq<Seq<char>>)>, path: Seq<char>) -> Seq<
    Seq<char>,
> {
    if exists|k: int| 0 <= k < per.len() && #[trigger] per[k].0 == path {
        let k = choose|k: int|
            0 <= k < per.len() && #[trigger] per[k].0 == path && forall|j: int|
                0 <= j < k ==> per[j].0 != path;
        general + per[k].1
    } else {
        general
    }
}

pub open spec fn per_player_view(per: Seq<(String, Vec<String>)>) -> Seq<(Seq<char>, Seq<Seq<char>>)> {
    per.map_values(|e: (String, Vec<String>)| (e.0@, strings_view(e.1@)))
}

fn copy_strings(v: &Vec<String>) -> (r: Vec<String>)
    ensures
        r@ == v@,
{
    let mut out: Vec<String> = Vec::new();
    let mut i: usize = 0;
    while i < v.len()
        invariant
            i <= v@.len(),
            out@ == v@.subrange(0, i as int),
        decreases v@.len() - i,
    {
        out.push(v[i].clone());
        proof {
            assert(out@ =~= v@.subrange(0, i + 1));
        }
        i = i + 1;
    }
    proof {
        assert(out@ =~= v@);
    }
    out
}

pub fn build_player_arguments(config: &PlayerConfig, player_path: &String) -> (r: Vec<String>)
    ensures
        strings_view(r@) == player_args_of(
            strings_view(config.player_arguments@),
            per_player_view(config.per_player_arguments@),
            player_path@,
        ),
{
    let mut args = copy_strings(&config.player_arguments);
    let ghost per = per_player_view(config.per_player_arguments@);
    let mut k: usize = 0;
    while k < config.per_player_arguments.len()
        invariant
            k <= config.per_player_arguments@.len(),
            per == per_player_view(config.per_player_arguments@),
            args@ == config.player_arguments@,
            forall|j: int| 0 <= j < k ==> per[j].0 != player_path@,
        decreases config.per_player_arguments@.len() - k,
    {
        if config.per_player_arguments[k].0 == *player_path {
            let extra = &config.per_player_arguments[k].1;
            let mut i: usize = 0;
            let ghost base = args@;
            while i < extra.len()
                invariant
                    i <= extra@.len(),
                    args@ == base + extra@.subrange(0, i as int),
                decreases extra@.len() - i,
            {
                args.push(extra[i].clone());
                proof {
                    assert(args@ =~= base + extra@.subrange(0, i + 1));
                }
                i = i + 1;
            }
            proof {
                assert(per[k as int].0 == player_path@);
                let c = choose|c: int|
                    0 <= c < per.len() && #[trigger] per[c].0 == player_path@ && forall|j: int|
                        0 <= j < c ==> per[j].0 != player_path@;
                assert(c == k) by {
                    if c > k {
                        assert(per[k as int].0 == player_path@);
                    }
                }
                assert(extra@.subrange(0, extra@.len() as int) =~= extra@);
                assert(strings_view(args@) =~= strings_view(config.player_arguments@) + per[k as int].1);
            }
            return args;
        }
        k = k + 1;
    }
    args
}

} // verus!
