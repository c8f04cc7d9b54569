//! How a file path is shown in a tool box: relative to the home directory
//! where it lies below it, and with its middle components cut to their
//! initials where it is long.

use vstd::prelude::*;
use vstd::string::StringExecFns;
use vstd::utf8::encode_utf8;
use crate::text::chars_of;
use crate::text::push_char;
use crate::text::push_chars;

verus! {

/// The components of a path between its slashes. A path without a slash is
/// one component, and a slash at either end bounds an empty component.
pub open spec fn components(s: Seq<char>) -> Seq<Seq<char>>
    decreases s.len(),
{
    if s.len() == 0 {
        seq![Seq::empty()]
    } else {
        let before = components(s.drop_last());
        if s.last() == '/' {
            before.push(Seq::empty())
        } else {
            before.drop_last().push(before.last().push(s.last()))
        }
    }
}

/// The components put together again, with a slash between two neighbours.
pub open spec fn joined(parts: Seq<Seq<char>>) -> Seq<char>
    decreases parts.len(),
{
    if parts.len() == 0 {
        Seq::empty()
    } else if parts.len() == 1 {
        parts[0]
    } else {
        joined(parts.drop_last()) + seq!['/'] + parts.last()
    }
}

/// The first character of each component that is not empty.
pub open spec fn initials(parts: Seq<Seq<char>>) -> Seq<Seq<char>>
    decreases parts.len(),
{
    if parts.len() == 0 {
        Seq::empty()
    } else if parts.last().len() == 0 {
        initials(parts.drop_last())
    } else {
        initials(parts.drop_last()).push(seq![parts.last()[0]])
    }
}

/// The longest path, in bytes, that is shown in full.
pub const SHORT_PATH_BYTES: usize = 60;

/// The length of a string in bytes, as `str::len` counts it.
pub open spec fn byte_len(s: Seq<char>) -> usize {
    encode_utf8(s).len() as usize
}

/// The components of a shortened path: the first one and the last two in
/// full, the ones between them as initials.
pub open spec fn shortened_components(parts: Seq<Seq<char>>) -> Seq<Seq<char>> {
    seq![parts[0]] + initials(parts.subrange(1, parts.len() - 2)) + seq![
        parts[parts.len() - 2],
        parts[parts.len() - 1],
    ]
}

/// A path as it is shown: in full where it has at most 60 bytes or at most
/// three components, else with its middle components cut to initials.
pub open spec fn shortened(s: Seq<char>) -> Seq<char> {
    if byte_len(s) <= SHORT_PATH_BYTES || components(s).len() <= 3 {
        s
    } else {
        joined(shortened_components(components(s)))
    }
}

/// Splitting loses nothing and cuts at every slash: the components of a
/// path, joined again, are the path, and no component holds a slash.
pub proof fn law_join_undoes_split(s: Seq<char>)
    ensures
        components(s).len() >= 1,
        joined(components(s)) == s,
        forall|k: int, i: int|
            0 <= k < components(s).len() && 0 <= i < components(s)[k].len() ==> (
            #[trigger] components(s)[k][i]) != '/',
    decreases s.len(),
{
    if s.len() == 0 {
        assert(joined(components(s)) == s);
    } else {
        let before = components(s.drop_last());
        law_join_undoes_split(s.drop_last());
        let parts = components(s);
        if s.last() == '/' {
            assert(parts.drop_last() == before);
            assert(joined(parts) == joined(before) + seq!['/'] + Seq::<char>::empty());
            assert(joined(parts) == s.drop_last().push('/'));
            assert(s.drop_last().push(s.last()) == s);
            assert forall|k: int, i: int|
                0 <= k < parts.len() && 0 <= i < parts[k].len() implies (#[trigger] parts[k][i])
                != '/' by {
                if k < before.len() {
                    assert(parts[k] == before[k]);
                }
            }
        } else {
            let last = before.last().push(s.last());
            assert(parts == before.drop_last().push(last));
            if before.len() == 1 {
                assert(joined(before) == before[0]);
                assert(joined(parts) == last);
            } else {
                assert(parts.drop_last() == before.drop_last());
                assert(joined(parts) == joined(before.drop_last()) + seq!['/'] + last);
                assert(joined(before) == joined(before.drop_last()) + seq!['/'] + before.last());
                assert(joined(parts) == joined(before).push(s.last()));
            }
            assert(joined(parts) == s.drop_last().push(s.last()));
            assert(s.drop_last().push(s.last()) == s);
            assert forall|k: int, i: int|
                0 <= k < parts.len() && 0 <= i < parts[k].len() implies (#[trigger] parts[k][i])
                != '/' by {
                if k < before.len() - 1 {
                    assert(parts[k] == before[k]);
                } else if i < before.last().len() {
                    assert(parts[k][i] == before[before.len() - 1][i]);
                }
            }
        }
    }
}

/// The deep view of a vector of characters is its view.
proof fn lemma_chars_deep_view(v: Vec<char>)
    ensures
        v.deep_view() == v@,
{
    assert(v.deep_view() =~= v@);
}

/// Splits a path at its slashes.
pub fn split_components(chars: &Vec<char>) -> (parts: Vec<Vec<char>>)
    ensures
        parts.deep_view() == components(chars@),
{
    let mut done: Vec<Vec<char>> = Vec::new();
    let mut current: Vec<char> = Vec::new();
    let mut i: usize = 0;
    assert(chars@.take(0) == Seq::<char>::empty());
    assert(done.deep_view().push(current@) =~= components(chars@.take(0)));
    while i < chars.len()
        invariant
            i <= chars.len(),
            done.deep_view().push(current@) == components(chars@.take(i as int)),
        decreases chars.len() - i,
    {
        let ghost before = components(chars@.take(i as int));
        assert(chars@.take(i + 1).drop_last() == chars@.take(i as int));
        assert(chars@.take(i + 1).last() == chars@[i as int]);
        assert(before.last() == current@);
        assert(before.drop_last() == done.deep_view());
        let c = chars[i];
        if c == '/' {
            let ghost finished = done.deep_view().push(current@);
            proof {
                lemma_chars_deep_view(current);
            }
            done.push(current);
            current = Vec::new();
            assert(done.deep_view() =~= finished);
        } else {
            current.push(c);
        }
        i += 1;
    }
    assert(chars@.take(chars@.len() as int) == chars@);
    let ghost all = done.deep_view().push(current@);
    proof {
        lemma_chars_deep_view(current);
    }
    done.push(current);
    assert(done.deep_view() =~= all);
    done
}

/// Appends a slash and one component to a path that has a component
/// already.
fn push_component(out: &mut String, Ghost(parts): Ghost<Seq<Seq<char>>>, component: &Vec<char>)
    requires
        parts.len() >= 1,
        old(out)@ == joined(parts),
    ensures
        final(out)@ == joined(parts.push(component@)),
{
    push_char(out, '/');
    push_chars(out, component);
    assert(parts.push(component@).drop_last() == parts);
}

/// Shortens a path that is shown: one of at most 60 bytes or at most three
/// components stays as it is; of a longer one the first component and the
/// last two stay, and each component between them that is not empty is cut
/// to its first character.
pub fn shorten_display(shown: &str) -> (r: String)
    ensures
        r@ == shortened(shown@),
{
    if shown.len() <= SHORT_PATH_BYTES {
        return String::from_str(shown);
    }
    let chars = chars_of(shown);
    let parts = split_components(&chars);
    let n = parts.len();
    if n <= 3 {
        return String::from_str(shown);
    }
    let ghost all = components(shown@);
    assert(forall|k: int| 0 <= k < n ==> parts@[k]@ == #[trigger] all[k]);
    let mut out = String::new();
    push_chars(&mut out, &parts[0]);
    let ghost mut built: Seq<Seq<char>> = seq![all[0]];
    assert(all.subrange(1, 1) == Seq::<Seq<char>>::empty());
    let mut k: usize = 1;
    while k < n - 2
        invariant
            n == parts.len(),
            n > 3,
            1 <= k <= n - 2,
            parts.deep_view() == all,
            built == seq![all[0]] + initials(all.subrange(1, k as int)),
            built.len() >= 1,
            out@ == joined(built),
        decreases n - k,
    {
        assert(all.subrange(1, k + 1).drop_last() == all.subrange(1, k as int));
        assert(all.subrange(1, k + 1).last() == all[k as int]);
        assert(parts@[k as int]@ == all[k as int]);
        if parts[k].len() > 0 {
            let mut initial: Vec<char> = Vec::new();
            initial.push(parts[k][0]);
            assert(initial@ == seq![all[k as int][0]]);
            push_component(&mut out, Ghost(built), &initial);
            proof {
                built = built.push(initial@);
            }
        }
        k += 1;
    }
    assert(parts@[n - 2]@ == all[n - 2]);
    assert(parts@[n - 1]@ == all[n - 1]);
    push_component(&mut out, Ghost(built), &parts[n - 2]);
    push_component(&mut out, Ghost(built.push(all[n - 2])), &parts[n - 1]);
    assert(built.push(all[n - 2]).push(all[n - 1]) == shortened_components(all));
    out
}

/// Calls `etcetera::home_dir`. Trusted for nothing but the call: the home
/// directory depends on the environment, so nothing is stated of it. A home
/// directory that is no valid UTF-8 is given as `None`; no path that is a
/// string lies below such a directory.
#[verifier::external_body]
fn home_directory() -> (r: Option<String>) {
    match etcetera::home_dir() {
        Ok(home) => match home.into_os_string().into_string() {
            Ok(text) => Some(text),
            Err(_) => None,
        },
        Err(_) => None,
    }
}

/// Calls `std::path::Path::strip_prefix`. Trusted for nothing but the call:
/// what counts as a component of a path differs between platforms, so
/// nothing is stated of the result.
#[verifier::external_body]
fn strip_path_prefix(path: &str, base: &str) -> (r: Option<String>) {
    match std::path::Path::new(path).strip_prefix(base) {
        Ok(rest) => Some(rest.display().to_string()),
        Err(_) => None,
    }
}

/// A path below the home directory as it is written: `~/` and the rest.
pub open spec fn below_home(rest: Seq<char>) -> Seq<char> {
    seq!['~', '/'] + rest
}

/// Writes a path below the home directory relative to it.
pub fn home_relative(rest: &str) -> (r: String)
    ensures
        r@ == below_home(rest@),
{
    let mut out = String::new();
    push_char(&mut out, '~');
    push_char(&mut out, '/');
    out.append(rest);
    assert(out@ == below_home(rest@));
    out
}

/// A path as it is shown, given what the prefix test found: relative to the
/// home directory where the test left a rest, as it is where the test
/// failed.
pub open spec fn shown_form(path: Seq<char>, stripped: Option<Seq<char>>) -> Seq<char> {
    match stripped {
        Some(rest) => below_home(rest),
        None => path,
    }
}

/// A path as it is printed, given what the prefix test found: in full in
/// debug mode, else the shortening of its shown form.
pub open spec fn printed_form(path: Seq<char>, stripped: Option<Seq<char>>, debug: bool) -> Seq<
    char,
> {
    if debug {
        path
    } else {
        shortened(shown_form(path, stripped))
    }
}

/// Shows a path, given what the prefix test found: `stripped` is the rest of
/// the path below the home directory, or `None` where the path does not lie
/// below it.
pub fn show_relative(path: &str, stripped: Option<&str>) -> (r: String)
    ensures
        r@ == shown_form(path@, stripped.deep_view()),
{
    match stripped {
        Some(rest) => home_relative(rest),
        None => String::from_str(path),
    }
}

/// Shortens a path for display, given what the prefix test found. With
/// `debug` the path is returned in full.
pub fn shorten_shown(path: &str, stripped: Option<&str>, debug: bool) -> (r: String)
    ensures
        r@ == printed_form(path@, stripped.deep_view(), debug),
{
    if debug {
        return String::from_str(path);
    }
    let shown = show_relative(path, stripped);
    shorten_display(shown.as_str())
}

/// Tests whether a path lies below the home directory and gives the rest of
/// the path where it does. The test is that of the platform's paths, by
/// whole components; nothing is stated of its outcome but that it fails
/// without a home directory.
pub fn rest_below(path: &str, home: Option<&str>) -> (r: Option<String>)
    ensures
        home is None ==> r is None,
{
    match home {
        Some(home) => strip_path_prefix(path, home),
        None => None,
    }
}

/// Shows a path relative to `home` where the platform says that it lies
/// below it, and as it is otherwise: the shown form for one of the outcomes
/// of the prefix test.
pub fn display_path(path: &str, home: Option<&str>) -> (r: String)
    ensures
        exists|stripped: Option<Seq<char>>|
            (home is None ==> stripped is None) && r@ == #[trigger] shown_form(path@, stripped),
        home is None ==> r@ == path@,
{
    let stripped = rest_below(path, home);
    match stripped {
        Some(rest) => {
            let r = show_relative(path, Some(rest.as_str()));
            assert(r@ == shown_form(path@, Some(rest@)));
            r
        },
        None => {
            let r = show_relative(path, None);
            assert(r@ == shown_form(path@, None));
            r
        },
    }
}

/// Shortens a path for display, given the home directory: the printed form
/// for one of the outcomes of the prefix test. With `debug` the path is
/// returned in full, and without a home directory the result is the
/// shortening of the path itself.
pub fn shorten_path_below(path: &str, home: Option<&str>, debug: bool) -> (r: String)
    ensures
        exists|stripped: Option<Seq<char>>|
            (home is None ==> stripped is None) && r@ == #[trigger] printed_form(
                path@,
                stripped,
                debug,
            ),
        debug ==> r@ == path@,
        !debug && home is None ==> r@ == shortened(path@),
{
    if debug {
        let r = shorten_shown(path, None, true);
        assert(r@ == printed_form(path@, None, debug));
        return r;
    }
    let stripped = rest_below(path, home);
    match stripped {
        Some(rest) => {
            let r = shorten_shown(path, Some(rest.as_str()), false);
            assert(r@ == printed_form(path@, Some(rest@), debug));
            r
        },
        None => {
            let r = shorten_shown(path, None, false);
            assert(r@ == printed_form(path@, None, debug));
            r
        },
    }
}

/// Shortens a path for display: relative to the home directory of the
/// environment where it lies below it, and with its middle components cut to
/// initials where it is long. With `debug` the path is returned in full.
pub fn shorten_path(path: &str, debug: bool) -> (r: String)
    ensures
        exists|stripped: Option<Seq<char>>| r@ == #[trigger] printed_form(path@, stripped, debug),
        debug ==> r@ == path@,
{
    if debug {
        return shorten_path_below(path, None, true);
    }
    let home = home_directory();
    match home {
        Some(home) => shorten_path_below(path, Some(home.as_str()), false),
        None => shorten_path_below(path, None, false),
    }
}

} // verus!
