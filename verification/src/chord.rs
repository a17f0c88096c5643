//! Chord expressions: `+`-delimited key tokens, and the synthetic key
//! events a chord expands to when it is sent.

use vstd::prelude::*;
use vstd::string::StringExecFns;

use crate::error::RekeyError;
use crate::keys::{to_virtual_key, ToVirtualKeyResult};
use crate::text::{push_char, spec_lower, spec_lower_char};

verus! {

/// Splitting a character sequence on a separator, front first. The
/// result always has at least one element; an empty input yields one
/// empty token, and a trailing separator yields a trailing empty token,
/// exactly as the standard splitter behaves.
pub open spec fn spec_split(s: Seq<char>, sep: char) -> Seq<Seq<char>>
    decreases s.len(),
{
    if s.len() == 0 {
        seq![Seq::<char>::empty()]
    } else if s[0] == sep {
        seq![Seq::<char>::empty()] + spec_split(s.drop_first(), sep)
    } else {
        let rest = spec_split(s.drop_first(), sep);
        seq![seq![s[0]] + rest[0]] + rest.drop_first()
    }
}

/// Joining token views with a separator; the inverse of splitting.
pub open spec fn spec_join(parts: Seq<Seq<char>>, sep: char) -> Seq<char>
    decreases parts.len(),
{
    if parts.len() == 0 {
        Seq::<char>::empty()
    } else if parts.len() == 1 {
        parts[0]
    } else {
        parts[0] + seq![sep] + spec_join(parts.drop_first(), sep)
    }
}

pub proof fn lemma_split_len(s: Seq<char>, sep: char)
    ensures
        spec_split(s, sep).len() >= 1,
    decreases s.len(),
{
    if s.len() == 0 {
    } else {
        lemma_split_len(s.drop_first(), sep);
    }
}

/// Joining the tokens of a split recovers the original expression: no
/// character of a chord expression is lost or invented by tokenising it.
pub proof fn lemma_split_join(s: Seq<char>, sep: char)
    ensures
        spec_join(spec_split(s, sep), sep) == s,
    decreases s.len(),
{
    if s.len() == 0 {
        assert(spec_join(spec_split(s, sep), sep) =~= s);
    } else if s[0] == sep {
        lemma_split_join(s.drop_first(), sep);
        lemma_split_len(s.drop_first(), sep);
        let parts = spec_split(s, sep);
        assert(parts.drop_first() =~= spec_split(s.drop_first(), sep));
        assert(spec_join(parts, sep) =~= s);
    } else {
        lemma_split_join(s.drop_first(), sep);
        lemma_split_len(s.drop_first(), sep);
        let rest = spec_split(s.drop_first(), sep);
        let parts = spec_split(s, sep);
        if rest.len() == 1 {
            assert(parts.len() == 1);
            assert(spec_join(parts, sep) == parts[0]);
            assert(spec_join(rest, sep) == rest[0]);
            assert(parts[0] =~= seq![s[0]] + rest[0]);
            assert(seq![s[0]] + rest[0] =~= s);
        } else {
            assert(parts.drop_first() =~= rest.drop_first());
            assert(spec_join(parts, sep) == parts[0] + seq![sep] + spec_join(
                rest.drop_first(),
                sep,
            ));
            assert(spec_join(rest, sep) == rest[0] + seq![sep] + spec_join(
                rest.drop_first(),
                sep,
            ));
            assert(parts[0] + seq![sep] + spec_join(rest.drop_first(), sep) =~= seq![s[0]] + (
            rest[0] + seq![sep] + spec_join(rest.drop_first(), sep)));
            assert(seq![s[0]] + spec_join(rest, sep) =~= s);
        }
    }
}

/// Lower-casing commutes with splitting, for any separator that
/// lower-casing leaves alone (such as `+`): the tokens of the folded
/// expression are the folded tokens.
pub proof fn lemma_split_lower(s: Seq<char>, sep: char)
    requires
        spec_lower_char(sep) == sep,
        forall|c: char| spec_lower_char(c) == sep ==> c == sep,
    ensures
        spec_split(spec_lower(s), sep) =~~= spec_split(s, sep).map_values(
            |t: Seq<char>| spec_lower(t),
        ),
    decreases s.len(),
{
    let lowered = spec_lower(s);
    if s.len() == 0 {
        assert(spec_lower(s) =~= Seq::<char>::empty());
        assert(spec_split(s, sep).map_values(|t: Seq<char>| spec_lower(t))[0] =~= Seq::<
            char,
        >::empty());
        assert(spec_split(spec_lower(s), sep) =~~= spec_split(s, sep).map_values(
            |t: Seq<char>| spec_lower(t),
        ));
    } else {
        lemma_split_lower(s.drop_first(), sep);
        lemma_split_len(s.drop_first(), sep);
        assert(lowered.len() == s.len());
        assert(lowered[0] == spec_lower_char(s[0]));
        assert(lowered.drop_first() =~= spec_lower(s.drop_first()));
        if s[0] == sep {
            assert(spec_split(lowered, sep) =~= seq![Seq::<char>::empty()] + spec_split(
                spec_lower(s.drop_first()),
                sep,
            ));
            assert(spec_split(s, sep).map_values(|t: Seq<char>| spec_lower(t)) =~~= seq![Seq::<
                char,
            >::empty()] + spec_split(s.drop_first(), sep).map_values(
                |t: Seq<char>| spec_lower(t),
            ));
        } else {
            assert(spec_lower_char(s[0]) != sep);
            let rest = spec_split(s.drop_first(), sep);
            let lrest = spec_split(spec_lower(s.drop_first()), sep);
            assert(lrest =~~= rest.map_values(|t: Seq<char>| spec_lower(t)));
            assert(spec_lower(seq![s[0]] + rest[0]) =~= seq![spec_lower_char(s[0])] + spec_lower(
                rest[0],
            ));
            assert(spec_split(lowered, sep) =~~= seq![seq![spec_lower_char(s[0])] + lrest[0]]
                + lrest.drop_first());
            assert(spec_split(s, sep).map_values(|t: Seq<char>| spec_lower(t)) =~~= seq![spec_lower(
                seq![s[0]] + rest[0],
            )] + rest.drop_first().map_values(|t: Seq<char>| spec_lower(t)));
            assert(rest.drop_first().map_values(|t: Seq<char>| spec_lower(t)) =~~= lrest.drop_first());
        }
    }
}

/// How one appended character extends a split: a separator opens a new
/// empty token, anything else extends the last token.
proof fn lemma_split_push(s: Seq<char>, sep: char, c: char)
    ensures
        c == sep ==> spec_split(s.push(c), sep) =~~= spec_split(s, sep) + seq![
            Seq::<char>::empty(),
        ],
        c != sep ==> spec_split(s.push(c), sep) =~~= spec_split(s, sep).update(
            spec_split(s, sep).len() - 1,
            spec_split(s, sep).last().push(c),
        ),
    decreases s.len(),
{
    lemma_split_len(s, sep);
    let goal_sep = spec_split(s, sep) + seq![Seq::<char>::empty()];
    let goal_other = spec_split(s, sep).update(
        spec_split(s, sep).len() - 1,
        spec_split(s, sep).last().push(c),
    );
    if s.len() == 0 {
        assert(s =~= Seq::<char>::empty());
        assert(s.push(c).drop_first() =~= Seq::<char>::empty());
        assert(spec_split(Seq::<char>::empty(), sep) =~~= seq![Seq::<char>::empty()]);
        if c == sep {
            assert(spec_split(s.push(c), sep) =~~= goal_sep);
        } else {
            assert(seq![s.push(c)[0]] + spec_split(Seq::<char>::empty(), sep)[0] =~= seq![c]);
            assert(Seq::<char>::empty().push(c) =~= seq![c]);
            assert(spec_split(s.push(c), sep) =~~= goal_other);
        }
    } else {
        lemma_split_push(s.drop_first(), sep, c);
        lemma_split_len(s.drop_first(), sep);
        assert(s.push(c)[0] == s[0]);
        assert(s.push(c).drop_first() =~= s.drop_first().push(c));
        let rest = spec_split(s.drop_first(), sep);
        let prest = spec_split(s.drop_first().push(c), sep);
        if s[0] == sep {
            assert(spec_split(s.push(c), sep) =~~= seq![Seq::<char>::empty()] + prest);
            if c == sep {
                assert(spec_split(s.push(c), sep) =~~= goal_sep);
            } else {
                assert(spec_split(s.push(c), sep) =~~= goal_other);
            }
        } else {
            if c == sep {
                assert(prest =~~= rest + seq![Seq::<char>::empty()]);
                assert(prest[0] =~= rest[0]);
                assert(spec_split(s.push(c), sep) =~~= seq![seq![s[0]] + rest[0]]
                    + rest.drop_first() + seq![Seq::<char>::empty()]);
                assert(spec_split(s.push(c), sep) =~~= goal_sep);
            } else {
                assert(prest =~~= rest.update(rest.len() - 1, rest.last().push(c)));
                if rest.len() == 1 {
                    assert(prest[0] =~= rest[0].push(c));
                    assert(seq![s[0]] + rest[0].push(c) =~= (seq![s[0]] + rest[0]).push(c));
                    assert(spec_split(s.push(c), sep) =~= seq![(seq![s[0]] + rest[0]).push(c)]
                        + prest.drop_first());
                } else {
                    assert(prest[0] =~= rest[0]);
                    assert(prest.drop_first() =~= rest.drop_first().update(
                        rest.drop_first().len() - 1,
                        rest.drop_first().last().push(c),
                    ));
                }
            }
        }
    }
}

/// Splits a chord expression on `+`.
pub fn split_chord(expr: &str) -> (r: Vec<String>)
    ensures
        r@.map_values(|t: String| t@) =~= spec_split(expr@, '+'),
{
    let n = expr.unicode_len();
    let mut parts: Vec<String> = Vec::new();
    let mut cur = String::new();
    let mut i: usize = 0;
    while i < n
        invariant
            n == expr@.len(),
            i <= n,
            spec_split(expr@.subrange(0, i as int), '+') =~= parts@.map_values(|t: String| t@)
                + seq![cur@],
        decreases n - i,
    {
        let c = expr.get_char(i);
        proof {
            assert(expr@.subrange(0, i + 1) =~= expr@.subrange(0, i as int).push(expr@[i as int]));
            lemma_split_push(expr@.subrange(0, i as int), '+', expr@[i as int]);
            lemma_split_len(expr@.subrange(0, i as int), '+');
        }
        if c == '+' {
            parts.push(cur);
            cur = String::new();
        } else {
            push_char(&mut cur, c);
        }
        proof {
            assert(spec_split(expr@.subrange(0, i + 1), '+') =~= parts@.map_values(
                |t: String| t@,
            ) + seq![cur@]);
        }
        i = i + 1;
    }
    proof {
        assert(expr@.subrange(0, n as int) =~= expr@);
    }
    parts.push(cur);
    parts
}

/// For any chord expression, joining the split tokens recovers the
/// expression, and splitting the lower-cased expression yields exactly
/// the lower-cased tokens: tokenising a chord loses nothing, and case
/// folding commutes with it.
pub proof fn lemma_chord_round_trip(expr: Seq<char>)
    ensures
        spec_join(spec_split(expr, '+'), '+') == expr,
        spec_split(spec_lower(expr), '+') =~~= spec_split(expr, '+').map_values(
            |t: Seq<char>| spec_lower(t),
        ),
{
    lemma_split_join(expr, '+');
    assert(spec_lower_char('+') == '+');
    assert forall|c: char| spec_lower_char(c) == '+' implies c == '+' by {
        if 'A' <= c && c <= 'Z' {
            assert(spec_lower_char(c) == (c as u8 + 32) as char);
        }
    }
    lemma_split_lower(expr, '+');
}

/// One synthetic key event: a key code, pressed or released.
#[derive(PartialEq, Eq, Clone, Copy, Debug, Structural)]
pub struct SynthKey {
    pub vkey: u16,
    pub up: bool,
}

/// Which half of a chord `sendKey` emits.
#[derive(PartialEq, Eq, Clone, Copy, Debug, Structural)]
pub enum SendDirection {
    Both,
    Up,
    Down,
}

/// Parses the optional direction argument of `sendKey`.
pub fn parse_send_direction(s: &str) -> (r: Option<SendDirection>)
    ensures
        r == Some(SendDirection::Both) ==> s@ == "both"@,
        r == Some(SendDirection::Up) ==> s@ == "up"@,
        r == Some(SendDirection::Down) ==> s@ == "down"@,
        r is None <==> s@ != "both"@ && s@ != "up"@ && s@ != "down"@,
{
    if crate::text::str_eq(s, "both") {
        Some(SendDirection::Both)
    } else if crate::text::str_eq(s, "up") {
        Some(SendDirection::Up)
    } else if crate::text::str_eq(s, "down") {
        Some(SendDirection::Down)
    } else {
        None
    }
}

pub const VK_SHIFT: u16 = 0x10;
pub const VK_CONTROL: u16 = 0x11;
pub const VK_MENU: u16 = 0x12;

/// The press events of one resolved token: its modifiers go down first,
/// then the key itself.
pub open spec fn down_events(r: ToVirtualKeyResult) -> Seq<SynthKey> {
    (if r.ctrl {
        seq![SynthKey { vkey: VK_CONTROL, up: false }]
    } else {
        Seq::<SynthKey>::empty()
    }) + (if r.alt {
        seq![SynthKey { vkey: VK_MENU, up: false }]
    } else {
        Seq::<SynthKey>::empty()
    }) + (if r.shift {
        seq![SynthKey { vkey: VK_SHIFT, up: false }]
    } else {
        Seq::<SynthKey>::empty()
    }) + seq![SynthKey { vkey: r.vkey, up: false }]
}

/// The release events of one resolved token: the key itself comes up
/// first, then its modifiers.
pub open spec fn up_events(r: ToVirtualKeyResult) -> Seq<SynthKey> {
    seq![SynthKey { vkey: r.vkey, up: true }] + (if r.ctrl {
        seq![SynthKey { vkey: VK_CONTROL, up: true }]
    } else {
        Seq::<SynthKey>::empty()
    }) + (if r.alt {
        seq![SynthKey { vkey: VK_MENU, up: true }]
    } else {
        Seq::<SynthKey>::empty()
    }) + (if r.shift {
        seq![SynthKey { vkey: VK_SHIFT, up: true }]
    } else {
        Seq::<SynthKey>::empty()
    })
}

/// The press half of a chord: tokens left to right.
pub open spec fn downs_of(parts: Seq<ToVirtualKeyResult>) -> Seq<SynthKey>
    decreases parts.len(),
{
    if parts.len() == 0 {
        Seq::<SynthKey>::empty()
    } else {
        down_events(parts[0]) + downs_of(parts.drop_first())
    }
}

/// The release half of a chord: tokens right to left.
pub open spec fn ups_of(parts: Seq<ToVirtualKeyResult>) -> Seq<SynthKey>
    decreases parts.len(),
{
    if parts.len() == 0 {
        Seq::<SynthKey>::empty()
    } else {
        up_events(parts.last()) + ups_of(parts.drop_last())
    }
}

/// The full event list of a chord for a direction.
pub open spec fn spec_send_key_events(parts: Seq<ToVirtualKeyResult>, dir: SendDirection) -> Seq<
    SynthKey,
> {
    match dir {
        SendDirection::Down => downs_of(parts),
        SendDirection::Up => ups_of(parts),
        SendDirection::Both => downs_of(parts) + ups_of(parts),
    }
}

fn push_down_events(out: &mut Vec<SynthKey>, r: &ToVirtualKeyResult)
    ensures
        final(out)@ == old(out)@ + down_events(*r),
{
    if r.ctrl {
        out.push(SynthKey { vkey: VK_CONTROL, up: false });
    }
    if r.alt {
        out.push(SynthKey { vkey: VK_MENU, up: false });
    }
    if r.shift {
        out.push(SynthKey { vkey: VK_SHIFT, up: false });
    }
    out.push(SynthKey { vkey: r.vkey, up: false });
    proof {
        assert(final(out)@ =~= old(out)@ + down_events(*r));
    }
}

fn push_up_events(out: &mut Vec<SynthKey>, r: &ToVirtualKeyResult)
    ensures
        final(out)@ == old(out)@ + up_events(*r),
{
    out.push(SynthKey { vkey: r.vkey, up: true });
    if r.ctrl {
        out.push(SynthKey { vkey: VK_CONTROL, up: true });
    }
    if r.alt {
        out.push(SynthKey { vkey: VK_MENU, up: true });
    }
    if r.shift {
        out.push(SynthKey { vkey: VK_SHIFT, up: true });
    }
    proof {
        assert(final(out)@ =~= old(out)@ + up_events(*r));
    }
}

proof fn lemma_downs_extend(parts: Seq<ToVirtualKeyResult>, i: int)
    requires
        0 <= i < parts.len(),
    ensures
        downs_of(parts.subrange(0, i + 1)) =~= downs_of(parts.subrange(0, i)) + down_events(
            parts[i],
        ),
    decreases i,
{
    if i == 0 {
        assert(parts.subrange(0, 1).drop_first() =~= parts.subrange(0, 0));
        assert(downs_of(parts.subrange(0, 0)) =~= Seq::<SynthKey>::empty());
    } else {
        lemma_downs_extend(parts.drop_first(), i - 1);
        assert(parts.subrange(0, i + 1).drop_first() =~= parts.drop_first().subrange(0, i));
        assert(parts.subrange(0, i).drop_first() =~= parts.drop_first().subrange(0, i - 1));
        assert(parts.drop_first()[i - 1] == parts[i]);
    }
}

/// Expands resolved chord tokens to the synthetic events to submit. A
/// token that needs the hankaku modifier cannot be synthesised and
/// fails the whole chord.
pub fn build_send_key_events(parts: &Vec<ToVirtualKeyResult>, dir: SendDirection) -> (r: Result<
    Vec<SynthKey>,
    RekeyError,
>)
    ensures
        r is Ok <==> (forall|i: int| 0 <= i < parts@.len() ==> !parts@[i].hankaku),
        r matches Ok(v) ==> v@ == spec_send_key_events(parts@, dir),
        r matches Err(e) ==> e is GenericError,
{
    let mut k: usize = 0;
    while k < parts.len()
        invariant
            k <= parts@.len(),
            forall|i: int| 0 <= i < k ==> !parts@[i].hankaku,
        decreases parts@.len() - k,
    {
        if parts[k].hankaku {
            return Err(RekeyError::GenericError(String::from_str("could not handle hankaku")));
        }
        k = k + 1;
    }
    let mut out: Vec<SynthKey> = Vec::new();
    let emit_downs = match dir {
        SendDirection::Both => true,
        SendDirection::Down => true,
        SendDirection::Up => false,
    };
    let emit_ups = match dir {
        SendDirection::Both => true,
        SendDirection::Up => true,
        SendDirection::Down => false,
    };
    if emit_downs {
        let mut i: usize = 0;
        while i < parts.len()
            invariant
                i <= parts@.len(),
                out@ =~= downs_of(parts@.subrange(0, i as int)),
            decreases parts@.len() - i,
        {
            proof {
                lemma_downs_extend(parts@, i as int);
            }
            push_down_events(&mut out, &parts[i]);
            i = i + 1;
        }
        proof {
            assert(parts@.subrange(0, parts@.len() as int) =~= parts@);
        }
    }
    if emit_ups {
        let mut j: usize = parts.len();
        while j > 0
            invariant
                j <= parts@.len(),
                emit_downs ==> out@ =~= downs_of(parts@) + ups_of(parts@.subrange(
                    j as int,
                    parts@.len() as int,
                )),
                !emit_downs ==> out@ =~= ups_of(parts@.subrange(j as int, parts@.len() as int)),
            decreases j,
        {
            j = j - 1;
            proof {
                lemma_ups_extend(parts@, j as int);
            }
            push_up_events(&mut out, &parts[j]);
        }
        proof {
            assert(parts@.subrange(0, parts@.len() as int) =~= parts@);
        }
    }
    Ok(out)
}

proof fn lemma_ups_extend(parts: Seq<ToVirtualKeyResult>, j: int)
    requires
        0 <= j < parts.len(),
    ensures
        ups_of(parts.subrange(j, parts.len() as int)) =~= ups_of(
            parts.subrange(j + 1, parts.len() as int),
        ) + up_events(parts[j]),
    decreases parts.len() - j,
{
    let n = parts.len() as int;
    let suffix = parts.subrange(j, n);
    assert(suffix.last() == parts[n - 1]);
    if j == n - 1 {
        assert(suffix.len() == 1);
        assert(suffix.last() == parts[j]);
        assert(suffix.drop_last() =~= Seq::<ToVirtualKeyResult>::empty());
        assert(parts.subrange(j + 1, n) =~= Seq::<ToVirtualKeyResult>::empty());
        assert(ups_of(Seq::<ToVirtualKeyResult>::empty()) =~= Seq::<SynthKey>::empty());
        assert(ups_of(suffix) =~= up_events(parts[j]) + Seq::<SynthKey>::empty());
        assert(up_events(parts[j]) + Seq::<SynthKey>::empty() =~= Seq::<SynthKey>::empty()
            + up_events(parts[j]));
    } else {
        lemma_ups_extend(parts.subrange(0, n - 1), j);
        assert(parts.subrange(0, n - 1).subrange(j, n - 1) =~= suffix.drop_last());
        assert(parts.subrange(0, n - 1).subrange(j + 1, n - 1) =~= parts.subrange(
            j + 1,
            n,
        ).drop_last());
        assert(parts.subrange(0, n - 1)[j] == parts[j]);
        assert(parts.subrange(j + 1, n).last() == parts[n - 1]);
        assert(ups_of(parts.subrange(j + 1, n)) =~= up_events(parts[n - 1]) + ups_of(
            parts.subrange(j + 1, n).drop_last(),
        ));
        assert(ups_of(suffix) =~= up_events(parts[n - 1]) + ups_of(suffix.drop_last()));
        assert(up_events(parts[n - 1]) + (ups_of(parts.subrange(j + 1, n).drop_last()) + up_events(
            parts[j],
        )) =~= (up_events(parts[n - 1]) + ups_of(parts.subrange(j + 1, n).drop_last())) + up_events(
            parts[j],
        ));
    }
}

/// Resolving every token of an already split chord against the table.
pub open spec fn spec_resolve_tokens(toks: Seq<Seq<char>>) -> Option<Seq<ToVirtualKeyResult>>
    decreases toks.len(),
{
    if toks.len() == 0 {
        Some(Seq::<ToVirtualKeyResult>::empty())
    } else {
        match crate::vkeys::spec_vkey_code(spec_lower(toks[0])) {
            Some(code) => {
                match spec_resolve_tokens(toks.drop_first()) {
                    Some(rest) => Some(
                        seq![
                            ToVirtualKeyResult {
                                vkey: code,
                                shift: false,
                                ctrl: false,
                                alt: false,
                                hankaku: false,
                            },
                        ] + rest,
                    ),
                    None => None,
                }
            },
            None => None,
        }
    }
}

proof fn lemma_resolve_extend(toks: Seq<Seq<char>>, i: int, acc: Seq<ToVirtualKeyResult>)
    requires
        0 <= i < toks.len(),
        spec_resolve_tokens(toks.subrange(0, i)) == Some(acc),
        crate::vkeys::spec_vkey_code(spec_lower(toks[i])) is Some,
    ensures
        spec_resolve_tokens(toks.subrange(0, i + 1)) == Some(
            acc.push(
                ToVirtualKeyResult {
                    vkey: crate::vkeys::spec_vkey_code(spec_lower(toks[i]))->Some_0,
                    shift: false,
                    ctrl: false,
                    alt: false,
                    hankaku: false,
                },
            ),
        ),
    decreases i,
{
    let v = ToVirtualKeyResult {
        vkey: crate::vkeys::spec_vkey_code(spec_lower(toks[i]))->Some_0,
        shift: false,
        ctrl: false,
        alt: false,
        hankaku: false,
    };
    if i == 0 {
        assert(toks.subrange(0, 1).drop_first() =~= toks.subrange(0, 0));
        assert(spec_resolve_tokens(toks.subrange(0, 0)) == Some(Seq::<ToVirtualKeyResult>::empty()));
        assert(acc =~= Seq::<ToVirtualKeyResult>::empty());
        assert(seq![v] + Seq::<ToVirtualKeyResult>::empty() =~= acc.push(v));
    } else {
        let head = crate::vkeys::spec_vkey_code(spec_lower(toks[0]));
        assert(head is Some);
        let h = ToVirtualKeyResult {
            vkey: head->Some_0,
            shift: false,
            ctrl: false,
            alt: false,
            hankaku: false,
        };
        let tail_acc = spec_resolve_tokens(toks.subrange(0, i).drop_first());
        assert(toks.subrange(0, i).drop_first() =~= toks.drop_first().subrange(0, i - 1));
        assert(tail_acc is Some);
        assert(acc =~= seq![h] + tail_acc->Some_0);
        lemma_resolve_extend(toks.drop_first(), i - 1, tail_acc->Some_0);
        assert(toks.drop_first()[i - 1] == toks[i]);
        assert(toks.drop_first().subrange(0, i) =~= toks.subrange(0, i + 1).drop_first());
        assert(toks.subrange(0, i + 1)[0] =~= toks[0]);
        assert(seq![h] + (tail_acc->Some_0).push(v) =~= (seq![h] + tail_acc->Some_0).push(v));
    }
}

/// Resolves the tokens of a split chord against the table; a token the
/// table does not know fails the whole chord.
pub fn resolve_tokens(toks: &Vec<String>) -> (r: Result<Vec<ToVirtualKeyResult>, RekeyError>)
    ensures
        r is Ok <==> spec_resolve_tokens(toks@.map_values(|t: String| t@)) is Some,
        r matches Ok(v) ==> Some(v@) == spec_resolve_tokens(toks@.map_values(|t: String| t@)),
        r matches Err(e) ==> e is ChordParseError,
{
    let ghost tv = toks@.map_values(|t: String| t@);
    let mut out: Vec<ToVirtualKeyResult> = Vec::new();
    let mut i: usize = 0;
    while i < toks.len()
        invariant
            i <= tv.len(),
            tv == toks@.map_values(|t: String| t@),
            tv.len() == toks@.len(),
            spec_resolve_tokens(tv.subrange(0, i as int)) == Some(out@),
        decreases tv.len() - i,
    {
        proof {
            assert(spec_resolve_tokens(tv.subrange(0, 0)) == Some(Seq::<ToVirtualKeyResult>::empty()));
        }
        match to_virtual_key(toks[i].as_str()) {
            Ok(v) => {
                proof {
                    lemma_resolve_extend(tv, i as int, out@);
                    assert(tv[i as int] == toks@[i as int]@);
                }
                out.push(v);
            },
            Err(e) => {
                proof {
                    lemma_resolve_prefix_none(tv, i as int);
                }
                return Err(e);
            },
        }
        i = i + 1;
    }
    proof {
        assert(tv.subrange(0, tv.len() as int) =~= tv);
    }
    Ok(out)
}

proof fn lemma_resolve_prefix_none(toks: Seq<Seq<char>>, i: int)
    requires
        0 <= i < toks.len(),
        crate::vkeys::spec_vkey_code(spec_lower(toks[i])) is None,
    ensures
        spec_resolve_tokens(toks) is None,
    decreases i,
{
    if toks.len() == 0 {
    } else if i == 0 {
    } else {
        lemma_resolve_prefix_none(toks.drop_first(), i - 1);
    }
}

} // verus!
