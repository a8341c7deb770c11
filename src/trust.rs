//! URL trust: which URLs the player may be told to load.
use vstd::prelude::*;
use crate::text::{ascii_lower, ascii_lowercase, copy_range, has_prefix, strings_view};

verus! {

/// A URL is a text that starts with `http://` or `https://`.
pub open spec fn is_url_spec(s: Seq<char>) -> bool {
    has_prefix(s, "http://"@) || has_prefix(s, "https://"@)
}

fn starts_with(s: &str, p: &str) -> (r: bool)
    ensures
        r == has_prefix(s@, p@),
{
    let n = s.unicode_len();
    let m = p.unicode_len();
    if m > n {
        return false;
    }
    let mut j: usize = 0;
    while j < m
        invariant
            n == s@.len(),
            m == p@.len(),
            m <= n,
            j <= m,
            forall|k: int| 0 <= k < j ==> s@[k] == p@[k],
        decreases m - j,
    {
        if s.get_char(j) != p.get_char(j) {
            proof {
                assert(s@.subrange(0, m as int)[j as int] != p@[j as int]);
            }
            return false;
        }
        j = j + 1;
    }
    proof {
        assert(s@.subrange(0, m as int) =~= p@);
    }
    true
}

pub fn is_url(s: &str) -> (r: bool)
    ensures
        r == is_url_spec(s@),
{
    starts_with(s, "http://") || starts_with(s, "https://")
}

/// Ends the authority part of a URL.
pub open spec fn ends_authority(c: char) -> bool {
    c == '/' || c == '?' || c == '#'
}

/// The part of `s` before the first character that ends the authority.
pub open spec fn authority_of(s: Seq<char>) -> Seq<char>
    decreases s.len(),
{
    if s.len() == 0 || ends_authority(s[0]) {
        Seq::empty()
    } else {
        seq![s[0]] + authority_of(s.drop_first())
    }
}

/// The part of `s` after its last `@` (all of it without one).
pub open spec fn after_last_at(s: Seq<char>) -> Seq<char>
    decreases s.len(),
{
    if s.len() == 0 {
        s
    } else if s.last() == '@' {
        Seq::empty()
    } else {
        after_last_at(s.drop_last()).push(s.last())
    }
}

/// The part of `s` before its first `:` (all of it without one).
pub open spec fn before_colon(s: Seq<char>) -> Seq<char>
    decreases s.len(),
{
    if s.len() == 0 || s[0] == ':' {
        Seq::empty()
    } else {
        seq![s[0]] + before_colon(s.drop_first())
    }
}

/// The host of a URL, in lower case: the authority after any user info and
/// before any port.
pub open spec fn url_host(s: Seq<char>) -> Seq<char> {
    let rest = if has_prefix(s, "https://"@) {
        s.subrange(8, s.len() as int)
    } else {
        s.subrange(7, s.len() as int)
    };
    ascii_lower(before_colon(after_last_at(authority_of(rest))))
}

/// A host matches a trusted domain exactly, or as a subdomain of it.
pub open spec fn host_matches(host: Seq<char>, domain: Seq<char>) -> bool {
    host == domain || (host.len() > domain.len() && host.subrange(
        host.len() - domain.len() - 1,
        host.len() as int,
    ) == seq!['.'] + domain)
}

/// A URL may be loaded unless trust is enforced and its host matches none of
/// the trusted domains (compared in lower case); non-URLs are not concerned.
pub open spec fn url_allowed(url: Seq<char>, domains: Seq<Seq<char>>, enforce: bool) -> bool {
    !is_url_spec(url) || !enforce || exists|k: int|
        0 <= k < domains.len() && host_matches(url_host(url), ascii_lower(#[trigger] domains[k]))
}

fn authority_end(s: &str, from: usize) -> (r: usize)
    requires
        from <= s@.len(),
    ensures
        from <= r <= s@.len(),
        s@.subrange(from as int, r as int) == authority_of(s@.subrange(from as int, s@.len() as int)),
{
    let n = s.unicode_len();
    let mut i: usize = from;
    while i < n && !(s.get_char(i) == '/' || s.get_char(i) == '?' || s.get_char(i) == '#')
        invariant
            n == s@.len(),
            from <= i <= n,
            authority_of(s@.subrange(from as int, n as int)) == s@.subrange(from as int, i as int)
                + authority_of(s@.subrange(i as int, n as int)),
        decreases n - i,
    {
        proof {
            let t = s@.subrange(i as int, n as int);
            assert(t.drop_first() =~= s@.subrange(i + 1, n as int));
            assert(s@.subrange(from as int, i as int) + seq![s@[i as int]] =~= s@.subrange(
                from as int,
                i + 1,
            ));
            assert(authority_of(t) == seq![t[0]] + authority_of(t.drop_first()));
            assert(s@.subrange(from as int, i as int) + (seq![t[0]] + authority_of(t.drop_first()))
                =~= s@.subrange(from as int, i + 1) + authority_of(s@.subrange(i + 1, n as int)));
        }
        i = i + 1;
    }
    proof {
        assert(authority_of(s@.subrange(i as int, n as int)) =~= Seq::<char>::empty());
        assert(s@.subrange(from as int, i as int) + Seq::<char>::empty() =~= s@.subrange(
            from as int,
            i as int,
        ));
    }
    i
}

fn user_info_end(s: &str, from: usize, to: usize) -> (r: usize)
    requires
        from <= to <= s@.len(),
    ensures
        from <= r <= to,
        s@.subrange(r as int, to as int) == after_last_at(s@.subrange(from as int, to as int)),
{
    let mut j: usize = to;
    while j > from && s.get_char(j - 1) != '@'
        invariant
            from <= j <= to <= s@.len(),
            after_last_at(s@.subrange(from as int, to as int)) == after_last_at(
                s@.subrange(from as int, j as int),
            ) + s@.subrange(j as int, to as int),
        decreases j,
    {
        proof {
            let t = s@.subrange(from as int, j as int);
            assert(t.drop_last() =~= s@.subrange(from as int, j - 1));
            assert(after_last_at(t) == after_last_at(t.drop_last()).push(t.last()));
            assert(after_last_at(t.drop_last()).push(t.last()) + s@.subrange(j as int, to as int)
                =~= after_last_at(s@.subrange(from as int, j - 1)) + s@.subrange(j - 1, to as int));
        }
        j = j - 1;
    }
    proof {
        assert(after_last_at(s@.subrange(from as int, j as int)) =~= Seq::<char>::empty());
        assert(Seq::<char>::empty() + s@.subrange(j as int, to as int) =~= s@.subrange(
            j as int,
            to as int,
        ));
    }
    j
}

fn port_start(s: &str, from: usize, to: usize) -> (r: usize)
    requires
        from <= to <= s@.len(),
    ensures
        from <= r <= to,
        s@.subrange(from as int, r as int) == before_colon(s@.subrange(from as int, to as int)),
{
    let mut i: usize = from;
    while i < to && s.get_char(i) != ':'
        invariant
            from <= i <= to <= s@.len(),
            before_colon(s@.subrange(from as int, to as int)) == s@.subrange(from as int, i as int)
                + before_colon(s@.subrange(i as int, to as int)),
        decreases to - i,
    {
        proof {
            let t = s@.subrange(i as int, to as int);
            assert(t.drop_first() =~= s@.subrange(i + 1, to as int));
            assert(before_colon(t) == seq![t[0]] + before_colon(t.drop_first()));
            assert(s@.subrange(from as int, i as int) + (seq![t[0]] + before_colon(t.drop_first()))
                =~= s@.subrange(from as int, i + 1) + before_colon(s@.subrange(i + 1, to as int)));
        }
        i = i + 1;
    }
    proof {
        assert(before_colon(s@.subrange(i as int, to as int)) =~= Seq::<char>::empty());
        assert(s@.subrange(from as int, i as int) + Seq::<char>::empty() =~= s@.subrange(
            from as int,
            i as int,
        ));
    }
    i
}

/// The lower-case host of a URL.
pub fn host_of_url(url: &str) -> (r: String)
    requires
        is_url_spec(url@),
    ensures
        r@ == url_host(url@),
{
    let n = url.unicode_len();
    let start: usize = if starts_with(url, "https://") {
        8
    } else {
        7
    };
    proof {
        reveal_strlit("https://");
        reveal_strlit("http://");
    }
    let end = authority_end(url, start);
    proof {
        let rest = url@.subrange(start as int, n as int);
        assert(authority_of(rest) == url@.subrange(start as int, end as int));
    }
    let host_start = user_info_end(url, start, end);
    let host_end = port_start(url, host_start, end);
    let host = copy_range(url, host_start, host_end);
    ascii_lowercase(host.as_str())
}

fn matches_domain(host: &String, domain: &String) -> (r: bool)
    ensures
        r == host_matches(host@, domain@),
{
    if *host == *domain {
        return true;
    }
    let h = host.as_str();
    let d = domain.as_str();
    let hn = h.unicode_len();
    let dn = d.unicode_len();
    if hn <= dn {
        return false;
    }
    let off = hn - dn - 1;
    if h.get_char(off) != '.' {
        proof {
            assert(host@.subrange(off as int, hn as int)[0] != (seq!['.'] + domain@)[0]);
        }
        return false;
    }
    let mut j: usize = 0;
    while j < dn
        invariant
            hn == host@.len(),
            dn == domain@.len(),
            h@ == host@,
            d@ == domain@,
            off + dn + 1 == hn,
            j <= dn,
            host@[off as int] == '.',
            forall|k: int| 0 <= k < j ==> host@[off + 1 + k] == domain@[k],
        decreases dn - j,
    {
        if h.get_char(off + 1 + j) != d.get_char(j) {
            proof {
                assert(host@.subrange(off as int, hn as int)[j + 1] != (seq!['.'] + domain@)[j
                    + 1]);
            }
            return false;
        }
        j = j + 1;
    }
    proof {
        assert(host@.subrange(off as int, hn as int) =~= seq!['.'] + domain@);
    }
    true
}

/// Whether the player may load `url` under the trusted-domain policy.
pub fn is_url_allowed(url: &str, trusted_domains: &Vec<String>, enforce: bool) -> (r: bool)
    ensures
        r == url_allowed(url@, strings_view(trusted_domains@), enforce),
{
    if !is_url(url) || !enforce {
        return true;
    }
    let host = host_of_url(url);
    let ghost v = strings_view(trusted_domains@);
    let mut k: usize = 0;
    while k < trusted_domains.len()
        invariant
            k <= trusted_domains@.len(),
            v == strings_view(trusted_domains@),
            host@ == url_host(url@),
            forall|j: int| 0 <= j < k ==> !host_matches(url_host(url@), ascii_lower(#[trigger] v[j])),
        decreases trusted_domains@.len() - k,
    {
        let d = ascii_lowercase(trusted_domains[k].as_str());
        proof {
            assert(v[k as int] == trusted_domains@[k as int]@);
        }
        if matches_domain(&host, &d) {
            return true;
        }
        k = k + 1;
    }
    false
}

} // verus!
