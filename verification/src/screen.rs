//! Screen dimming and locking during rest: which tools are available, and
//! how brightness levels are read and kept.
use vstd::prelude::*;

use crate::ids::{first_where, lemma_first_where};
use crate::text::{
    all_ws, chars_of, is_ws, lemma_trim_avoids, lemma_trim_empty_iff_all_ws, lemma_trim_ends,
    lemma_trim_idempotent, to_owned_string, trim, trim_range, trim_str,
};
use crate::tracker::opt_view;

verus! {

/// Line breaks.
pub open spec fn is_newline() -> spec_fn(char) -> bool {
    |c: char| c == '\n'
}

/// The bracket that opens a device annotation.
pub open spec fn is_bracket() -> spec_fn(char) -> bool {
    |c: char| c == '['
}

/// The first line of `s` (lines end at `\n`) whose trimmed text is not
/// empty, trimmed.
pub open spec fn first_nonblank_line(s: Seq<char>) -> Option<Seq<char>>
    decreases s.len(),
{
    let e = first_where(s, is_newline());
    let end = if e == -1 {
        s.len() as int
    } else {
        e
    };
    if trim(s.subrange(0, end)).len() > 0 {
        Some(trim(s.subrange(0, end)))
    } else if e == -1 {
        None
    } else {
        proof {
            lemma_first_where(s, is_newline());
        }
        first_nonblank_line(s.subrange(e + 1, s.len() as int))
    }
}

/// The level written on a line: the text before a `[` annotation, trimmed,
/// or the whole line.
pub open spec fn level_of_line(line: Seq<char>) -> Seq<char> {
    let b = first_where(line, is_bracket());
    if b == -1 {
        line
    } else {
        trim(line.subrange(0, b))
    }
}

/// The brightness level that `brightnessctl g` printed: the level on its
/// first non-blank line, when that level is not empty.
pub open spec fn brightness_level(out: Seq<char>) -> Option<Seq<char>> {
    match first_nonblank_line(out) {
        Some(line) => if level_of_line(line).len() > 0 {
            Some(level_of_line(line))
        } else {
            None
        },
        None => None,
    }
}

/// The level kept in a brightness file with `contents`: the contents
/// trimmed, `None` when nothing is left.
pub open spec fn saved_level(contents: Seq<char>) -> Option<Seq<char>> {
    if trim(contents).len() > 0 {
        Some(trim(contents))
    } else {
        None
    }
}

/// The first non-blank line is not empty, is its own trim and holds no line
/// break.
proof fn lemma_first_nonblank_line_shape(s: Seq<char>)
    ensures
        first_nonblank_line(s) matches Some(line) ==> {
            &&& line.len() > 0
            &&& trim(line) == line
            &&& !is_ws(line[0])
            &&& forall|j: int| 0 <= j < line.len() ==> line[j] != '\n'
        },
    decreases s.len(),
{
    let e = first_where(s, is_newline());
    lemma_first_where(s, is_newline());
    let end = if e == -1 {
        s.len() as int
    } else {
        e
    };
    let head = s.subrange(0, end);
    if trim(head).len() > 0 {
        assert forall|j: int| 0 <= j < head.len() implies head[j] != '\n' by {
            assert(head[j] == s[j]);
            assert(!is_newline()(s[j]));
        }
        lemma_trim_avoids(head, '\n');
        lemma_trim_idempotent(head);
        lemma_trim_ends(head);
    } else if e != -1 {
        lemma_first_nonblank_line_shape(s.subrange(e + 1, s.len() as int));
    }
}

/// A brightness level read from `brightnessctl g` is not empty, is its own
/// trim, and holds neither a `[` nor a line break. There is none exactly when
/// no line holds text or the first that does starts with `[`.
pub proof fn lemma_brightness_level_shape(out: Seq<char>)
    ensures
        first_nonblank_line(out) is None ==> brightness_level(out) is None,
        first_nonblank_line(out) matches Some(line) ==> (brightness_level(out) is None <==> line[0]
            == '['),
        brightness_level(out) matches Some(level) ==> {
            &&& level.len() > 0
            &&& trim(level) == level
            &&& forall|j: int| 0 <= j < level.len() ==> level[j] != '[' && level[j] != '\n'
        },
{
    lemma_first_nonblank_line_shape(out);
    if let Some(line) = first_nonblank_line(out) {
        let b = first_where(line, is_bracket());
        lemma_first_where(line, is_bracket());
        if b == -1 {
            assert forall|j: int| 0 <= j < line.len() implies line[j] != '[' by {
                assert(!is_bracket()(line[j]));
            }
            assert(line[0] != '[');
        } else {
            let head = line.subrange(0, b);
            assert forall|j: int| 0 <= j < head.len() implies head[j] != '[' && head[j] != '\n' by {
                assert(head[j] == line[j]);
                assert(!is_bracket()(line[j]));
            }
            lemma_trim_avoids(head, '[');
            lemma_trim_avoids(head, '\n');
            lemma_trim_idempotent(head);
            assert(is_bracket()(line[b]));
            if b > 0 {
                assert(head[0] == line[0]);
                assert(!all_ws(head));
                lemma_trim_empty_iff_all_ws(head);
                assert(line[0] != '[') by {
                    assert(!is_bracket()(line[0]));
                }
            } else {
                assert(head =~= Seq::<char>::empty());
                lemma_trim_empty_iff_all_ws(head);
            }
        }
    }
}

/// Only the first line counts when it holds text: what follows its line
/// break never changes the level read.
pub proof fn lemma_brightness_level_first_line(first: Seq<char>, rest: Seq<char>)
    requires
        forall|j: int| 0 <= j < first.len() ==> first[j] != '\n',
        trim(first).len() > 0,
    ensures
        brightness_level(first + seq!['\n'] + rest) == brightness_level(first),
{
    let s = first + seq!['\n'] + rest;
    lemma_first_where(s, is_newline());
    lemma_first_where(first, is_newline());
    assert(is_newline()(s[first.len() as int]));
    assert forall|j: int| 0 <= j < first.len() implies !is_newline()(#[trigger] s[j]) by {
        assert(s[j] == first[j]);
    }
    assert forall|j: int| 0 <= j < first.len() implies !is_newline()(#[trigger] first[j]) by {}
    let e = first_where(s, is_newline());
    if e < first.len() {
        assert(!is_newline()(s[e]));
    }
    assert(e == first.len());
    assert(s.subrange(0, first.len() as int) =~= first);
    assert(first.subrange(0, first.len() as int) =~= first);
}

/// A level kept before dimming reads back unchanged from the brightness
/// file.
pub proof fn lemma_saved_level_round_trip(out: Seq<char>)
    ensures
        brightness_level(out) matches Some(level) ==> saved_level(level) == Some(level),
{
    lemma_brightness_level_shape(out);
}

/// The first element of `v[lo..hi]` equal to `c`, found at `e`, is where
/// `first_where` puts it in that range.
proof fn lemma_first_char_at(v: Seq<char>, lo: int, hi: int, e: int, c: char)
    requires
        0 <= lo <= e <= hi <= v.len(),
        forall|j: int| lo <= j < e ==> v[j] != c,
        e == hi || v[e] == c,
    ensures
        first_where(v.subrange(lo, hi), |x: char| x == c) == (if e == hi {
            -1
        } else {
            e - lo
        }),
{
    let s = v.subrange(lo, hi);
    let f = |x: char| x == c;
    lemma_first_where(s, f);
    let w = first_where(s, f);
    if e == hi {
        assert forall|j: int| 0 <= j < s.len() implies !f(#[trigger] s[j]) by {
            assert(s[j] == v[j + lo]);
        }
    } else {
        assert(f(s[e - lo]));
        if w == -1 {
            assert(!f(s[e - lo]));
        } else if w < e - lo {
            assert(s[w] == v[w + lo]);
        } else if w > e - lo {
            assert(!f(s[e - lo]));
        }
    }
}

/// Reads the brightness level from the output of `brightnessctl g`. With
/// several devices it prints one line per device (`74% [backlight]`, then
/// `45% [led]`); the level is taken from the first non-blank line, without
/// its device annotation. `None` when no level is there.
pub fn parse_brightness_output(stdout: &str) -> (r: Option<String>)
    ensures
        opt_view(r) == brightness_level(stdout@),
        r is None <==> (match first_nonblank_line(stdout@) {
            Some(line) => line[0] == '[',
            None => true,
        }),
        r matches Some(level) ==> {
            &&& level@.len() > 0
            &&& trim(level@) == level@
            &&& forall|j: int| 0 <= j < level@.len() ==> level@[j] != '[' && level@[j] != '\n'
        },
{
    let v = chars_of(stdout);
    let n = v.len();
    let mut start: usize = 0;
    proof {
        assert(v@.subrange(0, n as int) =~= v@);
    }
    loop
        invariant
            start <= n,
            n == v@.len(),
            v@ == stdout@,
            first_nonblank_line(v@.subrange(start as int, n as int)) == first_nonblank_line(
                v@,
            ),
        decreases n - start,
    {
        let mut e: usize = start;
        while e < n && v[e] != '\n'
            invariant
                start <= e <= n,
                n == v@.len(),
                forall|j: int| start <= j < e ==> v@[j] != '\n',
            decreases n - e,
        {
            e = e + 1;
        }
        let ghost sub = v@.subrange(start as int, n as int);
        proof {
            lemma_first_char_at(v@, start as int, n as int, e as int, '\n');
            assert(is_newline() == (|x: char| x == '\n'));
            assert(sub.subrange(0, e - start) =~= v@.subrange(start as int, e as int));
        }
        let (a, b) = trim_range(&v, start, e);
        if a < b {
            let mut c: usize = a;
            while c < b && v[c] != '['
                invariant
                    a <= c <= b,
                    b <= n,
                    n == v@.len(),
                    forall|j: int| a <= j < c ==> v@[j] != '[',
                decreases b - c,
            {
                c = c + 1;
            }
            let ghost line = v@.subrange(a as int, b as int);
            proof {
                lemma_first_char_at(v@, a as int, b as int, c as int, '[');
                assert(is_bracket() == (|x: char| x == '['));
                assert(line.subrange(0, c - a) =~= v@.subrange(a as int, c as int));
            }
            let (la, lb) = if c < b {
                trim_range(&v, a, c)
            } else {
                (a, b)
            };
            if la < lb {
                let level = stdout.substring_char(la, lb);
                proof {
                    lemma_brightness_level_shape(stdout@);
                }
                return Some(to_owned_string(level));
            } else {
                proof {
                    lemma_brightness_level_shape(stdout@);
                }
                return None;
            }
        }
        if e == n {
            proof {
                lemma_brightness_level_shape(stdout@);
            }
            return None;
        }
        proof {
            assert(sub.subrange(e - start + 1, sub.len() as int) =~= v@.subrange(
                e + 1,
                n as int,
            ));
        }
        start = e + 1;
    }
}

/// The level kept in the brightness file: its contents trimmed, `None` when
/// nothing is left.
pub fn saved_brightness_level(contents: &str) -> (r: Option<String>)
    ensures
        opt_view(r) == saved_level(contents@),
{
    let level = trim_str(contents);
    if level.is_empty() {
        None
    } else {
        Some(to_owned_string(level))
    }
}

/// The level to keep before dimming: none when one is already kept (the
/// screen is dimmed already, and reading it again would keep the dimmed
/// level), otherwise the level that `brightnessctl g` printed.
pub fn brightness_level_to_save(stdout: &str, already_saved: bool) -> (r: Option<String>)
    ensures
        already_saved ==> r is None,
        !already_saved ==> opt_view(r) == brightness_level(stdout@),
{
    if already_saved {
        None
    } else {
        parse_brightness_output(stdout)
    }
}

/// Which screen tools the system offers.
pub struct ScreenTools {
    has_brightnessctl: bool,
    has_xset: bool,
    has_lock: bool,
}

impl ScreenTools {
    pub closed spec fn spec_brightnessctl(&self) -> bool {
        self.has_brightnessctl
    }

    pub closed spec fn spec_xset(&self) -> bool {
        self.has_xset
    }

    pub closed spec fn spec_lock(&self) -> bool {
        self.has_lock
    }

    /// The tools found by probing the system: `brightnessctl` and `xset` for
    /// dimming, and `loginctl` or else `xdg-screensaver` for locking.
    pub fn detect(
        brightnessctl_found: bool,
        xset_found: bool,
        loginctl_found: bool,
        xdg_screensaver_found: bool,
    ) -> (r: ScreenTools)
        ensures
            r.spec_brightnessctl() == brightnessctl_found,
            r.spec_xset() == xset_found,
            r.spec_lock() == (loginctl_found || xdg_screensaver_found),
    {
        ScreenTools {
            has_brightnessctl: brightnessctl_found,
            has_xset: xset_found,
            has_lock: loginctl_found || xdg_screensaver_found,
        }
    }

    pub fn has_brightnessctl(&self) -> (r: bool)
        ensures
            r == self.spec_brightnessctl(),
    {
        self.has_brightnessctl
    }

    pub fn has_xset(&self) -> (r: bool)
        ensures
            r == self.spec_xset(),
    {
        self.has_xset
    }

    pub fn has_lock(&self) -> (r: bool)
        ensures
            r == self.spec_lock(),
    {
        self.has_lock
    }

    /// The screen can be dimmed when either dimming tool is there.
    pub fn has_dim_support(&self) -> (r: bool)
        ensures
            r == (self.spec_brightnessctl() || self.spec_xset()),
    {
        self.has_brightnessctl || self.has_xset
    }
}

} // verus!
