//! The init process: its configuration, its decisions and the formats it writes

pub mod console;
pub mod init_console;
pub mod kickit;
pub mod mount;
pub mod power;
pub mod service;
pub mod target;
pub mod warden;

use vstd::prelude::*;
use vstd::string::*;
use crate::text::{split_seq, split_str, split_once, split_once_seq, trim_end_seq, trim_end_char, str_eq, Sep, strings, is_prefix, is_sep, is_first_sep, has_sep, first_sep, lemma_first_sep_unique};
use self::console::{Error, ErrorTrace, ErrorTraceView, traced};

verus! {

/// The ID of the "kickit-shell" user account, which an emergency shell is opened on
pub const EMERGENCY_SHELL_UID: u32 = 490;

/// Path of the emergency shell to execute, some distros may not have bash installed by default
pub const EMERGENCY_SHELL: &'static str = "/bin/bash";

/// What a parameter's lookup in the kernel command line finds among `pieces`:
/// `Some(Some(value))` for `param=value`, `Some(None)` for a bare `param`, or
/// `None` when no piece names it. A piece is read without its trailing line
/// feeds (the kernel ends the command line with one). The first piece that
/// names it decides.
pub open spec fn spec_param_in(pieces: Seq<Seq<char>>, param: Seq<char>) -> Option<Option<Seq<char>>>
    decreases pieces.len(),
{
    if pieces.len() == 0 {
        None
    } else {
        let p = trim_end_seq(pieces[0], '\n');
        let later = if p == param {
            Some(None)
        } else {
            spec_param_in(pieces.drop_first(), param)
        };
        match split_once_seq(p, '=') {
            Some((key, value)) => if key == param {
                Some(Some(value))
            } else {
                later
            },
            None => later,
        }
    }
}

pub open spec fn spec_cmdline(cmdline: Seq<char>, param: Seq<char>) -> Result<Option<Seq<char>>, ErrorTraceView> {
    match spec_param_in(split_seq(cmdline, Sep::Char(' ')), param) {
        Some(found) => Ok(found),
        None => Err(traced(Error::Cmdline, param)),
    }
}

/// Looks a parameter up in the kernel command line (the contents of
/// `/proc/cmdline`), whose parameters are separated by spaces
///
/// # Errors
///
/// * The parameter is not on the command line (`Cmdline`, traced with its name)
pub fn cmdline(line: &str, param: &str) -> (r: Result<Option<String>, ErrorTrace>)
    ensures
        match r {
            Ok(Some(v)) => spec_cmdline(line@, param@) == Ok::<Option<Seq<char>>, ErrorTraceView>(Some(v@)),
            Ok(None) => spec_cmdline(line@, param@) == Ok::<Option<Seq<char>>, ErrorTraceView>(None),
            Err(e) => spec_cmdline(line@, param@) == Err::<Option<Seq<char>>, ErrorTraceView>(e@),
        },
{
    let pieces = split_str(line, Sep::Char(' '));
    let ghost all = strings(pieces@);
    assert(all =~= split_seq(line@, Sep::Char(' ')));
    let mut i: usize = 0;
    assert(all.skip(0) =~= all);
    while i < pieces.len()
        invariant
            0 <= i <= pieces.len(),
            all == strings(pieces@),
            all == split_seq(line@, Sep::Char(' ')),
            spec_param_in(all.skip(i as int), param@) == spec_param_in(all, param@),
        decreases pieces.len() - i,
    {
        let p = pieces[i].as_str();
        let ghost rest = all.skip(i as int);
        assert(rest[0] == p@);
        assert(rest.drop_first() =~= all.skip(i + 1));
        let t = trim_end_char(p, '\n');
        match split_once(t.as_str(), '=') {
            Some((key, value)) => {
                if str_eq(key.as_str(), param) {
                    assert(split_once_seq(trim_end_seq(rest[0], '\n'), '=') == Some((key@, value@)));
                    assert(spec_param_in(rest, param@) == Some(Some(value@)));
                    return Ok(Some(value));
                }
            },
            None => {},
        }
        if str_eq(t.as_str(), param) {
            assert(spec_param_in(rest, param@) == Some(None::<Seq<char>>));
            return Ok(None);
        }
        i = i + 1;
    }
    assert(all.skip(i as int) =~= Seq::<Seq<char>>::empty());
    Err(Error::Cmdline.trace(param))
}

/// Whether a piece of the command line names `param`, bare or with a value
pub open spec fn names_param(piece: Seq<char>, param: Seq<char>) -> bool {
    let t = trim_end_seq(piece, '\n');
    t == param || is_prefix(param + seq!['='], t)
}

/// A text made of a key without `=`, an `=` and a value splits at that `=`
pub proof fn lemma_value_piece(t: Seq<char>, param: Seq<char>, v: Seq<char>)
    requires
        !param.contains('='),
        t == param + seq!['='] + v,
    ensures
        split_once_seq(t, '=') == Some((param, v)),
{
    let k = param.len() as int;
    assert(t[k] == '=');
    assert forall|j: int| 0 <= j < k implies !is_sep(#[trigger] t[j], Sep::Char('=')) by {
        assert(t[j] == param[j]);
        if t[j] == '=' {
            assert(param.contains('='));
        }
    }
    assert(is_first_sep(t, Sep::Char('='), k));
    lemma_first_sep_unique(t, Sep::Char('='), k, first_sep(t, Sep::Char('=')));
    assert(t.take(k) =~= param);
    assert(t.skip(k + 1) =~= v);
}

proof fn lemma_other_piece(t: Seq<char>, param: Seq<char>)
    requires
        !is_prefix(param + seq!['='], t),
    ensures
        split_once_seq(t, '=') matches Some((key, _)) ==> key != param,
{
    if has_sep(t, Sep::Char('=')) {
        let k = first_sep(t, Sep::Char('='));
        if t.take(k) == param {
            assert(t.take(k + 1) =~= param + seq!['=']);
        }
    }
}

proof fn lemma_param_value_found(pieces: Seq<Seq<char>>, param: Seq<char>, v: Seq<char>, j: int)
    requires
        !param.contains('='),
        0 <= j < pieces.len(),
        trim_end_seq(pieces[j], '\n') == param + seq!['='] + v,
        forall|k: int| 0 <= k < j ==> !names_param(#[trigger] pieces[k], param),
    ensures
        spec_param_in(pieces, param) == Some(Some(v)),
    decreases j,
{
    let t = trim_end_seq(pieces[0], '\n');
    if j == 0 {
        lemma_value_piece(t, param, v);
    } else {
        assert(!names_param(pieces[0], param));
        lemma_other_piece(t, param);
        let rest = pieces.drop_first();
        assert forall|k: int| 0 <= k < j - 1 implies !names_param(#[trigger] rest[k], param) by {
            assert(rest[k] == pieces[k + 1]);
        }
        assert(rest[j - 1] == pieces[j]);
        lemma_param_value_found(rest, param, v, j - 1);
    }
}

/// A parameter given a value on the kernel command line is found with all of
/// the text after its first `=`, whatever that text holds (another `=`
/// among it), when it is the first of the line's space-separated pieces
/// that names the parameter (a trailing line feed aside).
pub proof fn law_cmdline_value_whole(line: Seq<char>, param: Seq<char>, v: Seq<char>, j: int)
    requires
        !param.contains('='),
        0 <= j < split_seq(line, Sep::Char(' ')).len(),
        trim_end_seq(split_seq(line, Sep::Char(' '))[j], '\n') == param + seq!['='] + v,
        forall|k: int| 0 <= k < j ==> !names_param(#[trigger] split_seq(line, Sep::Char(' '))[k], param),
    ensures
        spec_cmdline(line, param) == Ok::<Option<Seq<char>>, ErrorTraceView>(Some(v)),
{
    lemma_param_value_found(split_seq(line, Sep::Char(' ')), param, v, j);
}

proof fn lemma_param_bare_found(pieces: Seq<Seq<char>>, param: Seq<char>, j: int)
    requires
        !param.contains('='),
        0 <= j < pieces.len(),
        trim_end_seq(pieces[j], '\n') == param,
        forall|k: int| 0 <= k < j ==> !names_param(#[trigger] pieces[k], param),
    ensures
        spec_param_in(pieces, param) == Some(None::<Seq<char>>),
    decreases j,
{
    let t = trim_end_seq(pieces[0], '\n');
    if j == 0 {
        if has_sep(t, Sep::Char('=')) {
            let k = first_sep(t, Sep::Char('='));
            assert(t[k] == '=');
            assert(param.contains('='));
        }
    } else {
        assert(!names_param(pieces[0], param));
        lemma_other_piece(t, param);
        let rest = pieces.drop_first();
        assert forall|k: int| 0 <= k < j - 1 implies !names_param(#[trigger] rest[k], param) by {
            assert(rest[k] == pieces[k + 1]);
        }
        assert(rest[j - 1] == pieces[j]);
        lemma_param_bare_found(rest, param, j - 1);
    }
}

proof fn lemma_param_in_none(pieces: Seq<Seq<char>>, param: Seq<char>)
    requires
        !param.contains('='),
    ensures
        spec_param_in(pieces, param) is None <==> forall|k: int| 0 <= k < pieces.len() ==> !names_param(
            #[trigger] pieces[k],
            param,
        ),
    decreases pieces.len(),
{
    if pieces.len() > 0 {
        let rest = pieces.drop_first();
        lemma_param_in_none(rest, param);
        let t = trim_end_seq(pieces[0], '\n');
        if names_param(pieces[0], param) {
            if t != param {
                let n = param.len() as int;
                assert(t.take(n + 1) == param + seq!['=']);
                assert(t =~= param + seq!['='] + t.skip(n + 1));
                lemma_value_piece(t, param, t.skip(n + 1));
            }
        } else {
            lemma_other_piece(t, param);
            assert forall|k: int| 0 <= k < pieces.len() && !names_param(#[trigger] pieces[k], param)
                implies (k == 0 || !names_param(rest[k - 1], param)) by {
                if k > 0 {
                    assert(rest[k - 1] == pieces[k]);
                }
            }
            if spec_param_in(rest, param) is None {
                assert forall|k: int| 0 <= k < pieces.len() implies !names_param(#[trigger] pieces[k], param) by {
                    if k > 0 {
                        assert(rest[k - 1] == pieces[k]);
                    }
                }
            } else {
                let k = choose|k: int| 0 <= k < rest.len() && names_param(#[trigger] rest[k], param);
                assert(pieces[k + 1] == rest[k]);
            }
        }
    }
}

/// A parameter named bare on the kernel command line is found without a
/// value, the last one too (whose piece ends with the kernel's line feed),
/// when no earlier space-separated piece names it.
pub proof fn law_cmdline_bare_found(line: Seq<char>, param: Seq<char>, j: int)
    requires
        !param.contains('='),
        0 <= j < split_seq(line, Sep::Char(' ')).len(),
        trim_end_seq(split_seq(line, Sep::Char(' '))[j], '\n') == param,
        forall|k: int| 0 <= k < j ==> !names_param(#[trigger] split_seq(line, Sep::Char(' '))[k], param),
    ensures
        spec_cmdline(line, param) == Ok::<Option<Seq<char>>, ErrorTraceView>(None),
{
    lemma_param_bare_found(split_seq(line, Sep::Char(' ')), param, j);
}

/// Looking a parameter up fails exactly when no space-separated piece of
/// the kernel command line names it, bare or with a value (a trailing line
/// feed aside), and then with a `Cmdline` error traced with its name.
pub proof fn law_cmdline_missing(line: Seq<char>, param: Seq<char>)
    requires
        !param.contains('='),
    ensures
        spec_cmdline(line, param) is Err <==> forall|k: int|
            0 <= k < split_seq(line, Sep::Char(' ')).len() ==> !names_param(
                #[trigger] split_seq(line, Sep::Char(' '))[k],
                param,
            ),
        spec_cmdline(line, param) is Err ==> spec_cmdline(line, param) == Err::<
            Option<Seq<char>>,
            ErrorTraceView,
        >(traced(Error::Cmdline, param)),
{
    lemma_param_in_none(split_seq(line, Sep::Char(' ')), param);
}

} // verus!
