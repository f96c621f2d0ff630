use vstd::prelude::*;
use vstd::string::*;

verus! {

/// `s` without its trailing `/` characters.
pub open spec fn trim_trailing_slashes(s: Seq<char>) -> Seq<char>
    decreases s.len(),
{
    if s.len() > 0 && s.last() == '/' {
        trim_trailing_slashes(s.drop_last())
    } else {
        s
    }
}

/// A registry base URL in the form every component here expects:
/// non-empty and ending with a single path separator, so that a package
/// URL is formed by plain concatenation.
pub open spec fn is_normalized_base(s: Seq<char>) -> bool {
    s.len() > 0 && s.last() == '/'
}

/// Rewrites a configured registry origin so it ends with exactly one
/// trailing slash, however many (including none) it came with.
pub fn normalize_base_url(s: &str) -> (r: String)
    ensures
        r@ == trim_trailing_slashes(s@) + "/"@,
        is_normalized_base(r@),
{
    let n: usize = s.unicode_len();
    let mut end: usize = n;
    proof {
        assert(s@.subrange(0, n as int) =~= s@);
    }
    while end > 0 && s.get_char(end - 1) == '/'
        invariant
            end <= n,
            n == s@.len(),
            trim_trailing_slashes(s@) == trim_trailing_slashes(s@.subrange(0, end as int)),
        decreases end,
    {
        proof {
            assert(s@.subrange(0, end as int).last() == s@[end - 1]);
            assert(s@.subrange(0, end as int).drop_last() =~= s@.subrange(0, end - 1));
        }
        end = end - 1;
    }
    let prefix: &str = s.substring_char(0, end);
    proof {
        assert(trim_trailing_slashes(s@.subrange(0, end as int)) == s@.subrange(0, end as int));
    }
    let owned: String = prefix.to_owned();
    let r = owned.concat("/");
    proof {
        reveal_strlit("/");
        assert(r@.last() == '/');
    }
    r
}

/// The URL fetched for a package: the registry base followed directly by
/// the package name.
pub fn package_url(base: &str, name: &str) -> (r: String)
    ensures
        r@ == base@ + name@,
{
    let owned: String = base.to_owned();
    owned.concat(name)
}

} // verus!
