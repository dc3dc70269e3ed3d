use vstd::prelude::*;
use vstd::string::{StrSliceExecFns, StringExecFns};
use crate::data::{EntryModel, LeaderboardEntry, LeaderboardResponse, ResponseModel};
use crate::url::{dec_rep, digit_char, push_decimal_i32};

verus! {

// ---------------------------------------------------------------------------
// Rendering a response as JSON text. The quote, the backslash and the
// control characters are escaped (controls in the `\u00XX` form); every
// other character stands as itself. The fields are emitted under their
// exact wire names, in the encoder's order, with no added whitespace.
// ---------------------------------------------------------------------------

/// The character for one hexadecimal digit (lower case).
pub open spec fn hex_char(d: int) -> char {
    if d < 10 {
        digit_char(d)
    } else if d == 10 {
        'a'
    } else if d == 11 {
        'b'
    } else if d == 12 {
        'c'
    } else if d == 13 {
        'd'
    } else if d == 14 {
        'e'
    } else {
        'f'
    }
}

/// How one character appears inside a JSON string literal.
pub open spec fn esc_char(c: char) -> Seq<char> {
    if c == '"' {
        seq!['\\', '"']
    } else if c == '\\' {
        seq!['\\', '\\']
    } else if (c as int) < 32 {
        seq!['\\', 'u', '0', '0', hex_char(c as int / 16), hex_char(c as int % 16)]
    } else {
        seq![c]
    }
}

/// How a whole text appears inside a JSON string literal.
pub open spec fn esc_str(s: Seq<char>) -> Seq<char>
    decreases s.len(),
{
    if s.len() == 0 {
        Seq::<char>::empty()
    } else {
        esc_char(s[0]) + esc_str(s.skip(1))
    }
}

/// A JSON string literal: the escaped text between quotes.
pub open spec fn quoted(s: Seq<char>) -> Seq<char> {
    seq!['"'] + esc_str(s) + seq!['"']
}

/// Escaping goes character by character, in order.
pub proof fn lemma_esc_str_push(s: Seq<char>, c: char)
    ensures
        esc_str(s.push(c)) == esc_str(s) + esc_char(c),
    decreases s.len(),
{
    if s.len() == 0 {
        assert(s =~= Seq::<char>::empty());
        assert(esc_str(Seq::<char>::empty()) == Seq::<char>::empty());
        assert(s.push(c)[0] == c);
        assert(s.push(c).skip(1) =~= Seq::<char>::empty());
        assert(esc_char(c) + Seq::<char>::empty() =~= esc_char(c));
        assert(Seq::<char>::empty() + esc_char(c) =~= esc_char(c));
    } else {
        assert(s.push(c)[0] == s[0]);
        assert(s.push(c).skip(1) =~= s.skip(1).push(c));
        lemma_esc_str_push(s.skip(1), c);
        assert(esc_char(s[0]) + (esc_str(s.skip(1)) + esc_char(c)) =~= (esc_char(s[0]) + esc_str(
            s.skip(1),
        )) + esc_char(c));
    }
}

/// The text of one entry object.
pub open spec fn entry_text(m: EntryModel) -> Seq<char> {
    "{\"creator\":"@ + quoted(m.creator) + ",\"totalCreatorReward\":"@ + quoted(
        m.total_creator_reward,
    ) + ",\"mainnetReward\":"@ + quoted(m.mainnet_reward) + ",\"optimismReward\":"@ + quoted(
        m.optimism_reward,
    ) + ",\"baseReward\":"@ + quoted(m.base_reward) + ",\"zoraReward\":"@ + quoted(m.zora_reward)
        + "}"@
}

/// The text of the entries array's contents: the entries' objects,
/// separated by commas.
pub open spec fn entries_text(ms: Seq<EntryModel>) -> Seq<char>
    decreases ms.len(),
{
    if ms.len() == 0 {
        Seq::<char>::empty()
    } else if ms.len() == 1 {
        entry_text(ms[0])
    } else {
        entry_text(ms[0]) + ","@ + entries_text(ms.skip(1))
    }
}

/// The array text grows entry by entry, each after a comma.
pub proof fn lemma_entries_text_push(ms: Seq<EntryModel>, m: EntryModel)
    requires
        ms.len() > 0,
    ensures
        entries_text(ms.push(m)) == entries_text(ms) + ","@ + entry_text(m),
    decreases ms.len(),
{
    if ms.len() == 1 {
        assert(ms.push(m)[0] == ms[0]);
        assert(ms.push(m).skip(1) =~= seq![m]);
        assert(entries_text(seq![m]) == entry_text(m));
        assert(entries_text(ms) == entry_text(ms[0]));
    } else {
        assert(ms.push(m)[0] == ms[0]);
        assert(ms.push(m).skip(1) =~= ms.skip(1).push(m));
        lemma_entries_text_push(ms.skip(1), m);
        assert(entry_text(ms[0]) + ","@ + (entries_text(ms.skip(1)) + ","@ + entry_text(m))
            =~= (entry_text(ms[0]) + ","@ + entries_text(ms.skip(1))) + ","@ + entry_text(m));
    }
}

/// The text of a whole response object.
pub open spec fn response_text(m: ResponseModel) -> Seq<char> {
    "{\"leaderboard_data\":["@ + entries_text(m.entries) + "],\"recordsCount\":"@ + dec_rep(
        m.records_count,
    ) + ",\"totalZoraFees\":"@ + quoted(m.total_zora_fees) + ",\"totalCreatorFees\":"@ + quoted(
        m.total_creator_fees,
    ) + "}"@
}

/// The one-character string for a hexadecimal digit.
fn hex_str(d: u32) -> (r: &'static str)
    requires
        d < 16,
    ensures
        r@ == seq![hex_char(d as int)],
{
    match d {
        0 => {
            proof {
                reveal_strlit("0");
                assert("0"@ =~= seq![hex_char(0)]);
            }
            "0"
        },
        1 => {
            proof {
                reveal_strlit("1");
                assert("1"@ =~= seq![hex_char(1)]);
            }
            "1"
        },
        2 => {
            proof {
                reveal_strlit("2");
                assert("2"@ =~= seq![hex_char(2)]);
            }
            "2"
        },
        3 => {
            proof {
                reveal_strlit("3");
                assert("3"@ =~= seq![hex_char(3)]);
            }
            "3"
        },
        4 => {
            proof {
                reveal_strlit("4");
                assert("4"@ =~= seq![hex_char(4)]);
            }
            "4"
        },
        5 => {
            proof {
                reveal_strlit("5");
                assert("5"@ =~= seq![hex_char(5)]);
            }
            "5"
        },
        6 => {
            proof {
                reveal_strlit("6");
                assert("6"@ =~= seq![hex_char(6)]);
            }
            "6"
        },
        7 => {
            proof {
                reveal_strlit("7");
                assert("7"@ =~= seq![hex_char(7)]);
            }
            "7"
        },
        8 => {
            proof {
                reveal_strlit("8");
                assert("8"@ =~= seq![hex_char(8)]);
            }
            "8"
        },
        9 => {
            proof {
                reveal_strlit("9");
                assert("9"@ =~= seq![hex_char(9)]);
            }
            "9"
        },
        10 => {
            proof {
                reveal_strlit("a");
                assert("a"@ =~= seq![hex_char(10)]);
            }
            "a"
        },
        11 => {
            proof {
                reveal_strlit("b");
                assert("b"@ =~= seq![hex_char(11)]);
            }
            "b"
        },
        12 => {
            proof {
                reveal_strlit("c");
                assert("c"@ =~= seq![hex_char(12)]);
            }
            "c"
        },
        13 => {
            proof {
                reveal_strlit("d");
                assert("d"@ =~= seq![hex_char(13)]);
            }
            "d"
        },
        14 => {
            proof {
                reveal_strlit("e");
                assert("e"@ =~= seq![hex_char(14)]);
            }
            "e"
        },
        _ => {
            proof {
                reveal_strlit("f");
                assert("f"@ =~= seq![hex_char(15)]);
            }
            "f"
        },
    }
}

/// Appends the escaped form of `s`.
fn push_escaped(s: &str, out: &mut String)
    ensures
        final(out)@ == old(out)@ + esc_str(s@),
{
    let n = s.unicode_len();
    let mut i: usize = 0;
    proof {
        assert(s@.take(0) =~= Seq::<char>::empty());
        assert(old(out)@ + Seq::<char>::empty() =~= old(out)@);
    }
    while i < n
        invariant
            n == s@.len(),
            i <= n,
            out@ == old(out)@ + esc_str(s@.take(i as int)),
        decreases n - i,
    {
        let c = s.get_char(i);
        let ghost pre = out@;
        if c == '"' {
            out.append("\\\"");
            proof {
                reveal_strlit("\\\"");
                assert("\\\""@ =~= esc_char(c));
            }
        } else if c == '\\' {
            out.append("\\\\");
            proof {
                reveal_strlit("\\\\");
                assert("\\\\"@ =~= esc_char(c));
            }
        } else if (c as u32) < 32 {
            out.append("\\u00");
            out.append(hex_str((c as u32) / 16));
            out.append(hex_str((c as u32) % 16));
            proof {
                reveal_strlit("\\u00");
                assert(((pre + "\\u00"@) + seq![hex_char((c as u32 / 16) as int)]) + seq![
                    hex_char((c as u32 % 16) as int),
                ] =~= pre + esc_char(c));
            }
        } else {
            let piece = s.substring_char(i, i + 1);
            out.append(piece);
            proof {
                assert(s@.subrange(i as int, i as int + 1) =~= seq![s@[i as int]]);
                assert(seq![s@[i as int]] =~= esc_char(c));
            }
        }
        i = i + 1;
        proof {
            assert(s@.take(i as int) =~= s@.take(i as int - 1).push(s@[i as int - 1]));
            lemma_esc_str_push(s@.take(i as int - 1), s@[i as int - 1]);
            assert((old(out)@ + esc_str(s@.take(i as int - 1))) + esc_char(s@[i as int - 1])
                =~= old(out)@ + esc_str(s@.take(i as int)));
        }
    }
    proof {
        assert(s@.take(n as int) =~= s@);
    }
}

/// Appends `s` as a JSON string literal.
fn push_quoted(s: &str, out: &mut String)
    ensures
        final(out)@ == old(out)@ + quoted(s@),
{
    out.append("\"");
    push_escaped(s, out);
    out.append("\"");
    proof {
        reveal_strlit("\"");
        assert("\""@ =~= seq!['"']);
        assert(((old(out)@ + "\""@) + esc_str(s@)) + "\""@ =~= old(out)@ + quoted(s@));
    }
}

/// Appends the text of one entry object.
fn push_entry(e: &LeaderboardEntry, out: &mut String)
    ensures
        final(out)@ == old(out)@ + entry_text(e@),
{
    out.append("{\"creator\":");
    push_quoted(e.creator.as_str(), out);
    out.append(",\"totalCreatorReward\":");
    push_quoted(e.total_creator_reward.as_str(), out);
    out.append(",\"mainnetReward\":");
    push_quoted(e.mainnet_reward.as_str(), out);
    out.append(",\"optimismReward\":");
    push_quoted(e.optimism_reward.as_str(), out);
    out.append(",\"baseReward\":");
    push_quoted(e.base_reward.as_str(), out);
    out.append(",\"zoraReward\":");
    push_quoted(e.zora_reward.as_str(), out);
    out.append("}");
    proof {
        assert(out@ =~= old(out)@ + entry_text(e@));
    }
}

/// Renders a response as JSON text. Parsing that text and decoding the
/// parsed document against the schema gives the response back: the text
/// form of the round trip.
pub fn render_response(r: &LeaderboardResponse) -> (t: String)
    ensures
        t@ == response_text(r@),
{
    let mut out = String::new();
    out.append("{\"leaderboard_data\":[");
    let ghost prefix = out@;
    let mut i: usize = 0;
    while i < r.leaderboard_data.len()
        invariant
            prefix == Seq::<char>::empty() + "{\"leaderboard_data\":["@,
            i <= r.leaderboard_data@.len(),
            out@ == prefix + entries_text(
                Seq::new(i as nat, |k: int| r.leaderboard_data@[k]@),
            ),
        decreases r.leaderboard_data@.len() - i,
    {
        let ghost done = Seq::new(i as nat, |k: int| r.leaderboard_data@[k]@);
        let ghost pre = out@;
        if i > 0 {
            out.append(",");
        }
        push_entry(&r.leaderboard_data[i], &mut out);
        i = i + 1;
        proof {
            let done2 = Seq::new(i as nat, |k: int| r.leaderboard_data@[k]@);
            assert(done2 =~= done.push(r.leaderboard_data@[i - 1]@));
            if i == 1 {
                assert(done =~= Seq::<EntryModel>::empty());
                assert(entries_text(done2) == entry_text(done2[0]));
                assert(done2[0] == r.leaderboard_data@[0]@);
                assert(pre + entry_text(r.leaderboard_data@[0]@) =~= prefix + entries_text(
                    done2,
                ));
            } else {
                reveal_strlit(",");
                assert(","@ =~= seq![',']);
                lemma_entries_text_push(done, r.leaderboard_data@[i - 1]@);
                assert(((pre + ","@) + entry_text(r.leaderboard_data@[i - 1]@)) =~= prefix
                    + entries_text(done2));
            }
        }
    }
    proof {
        assert(Seq::new(r.leaderboard_data@.len(), |k: int| r.leaderboard_data@[k]@) =~= r@.entries);
    }
    out.append("],\"recordsCount\":");
    push_decimal_i32(r.records_count, &mut out);
    out.append(",\"totalZoraFees\":");
    push_quoted(r.total_zora_fees.as_str(), &mut out);
    out.append(",\"totalCreatorFees\":");
    push_quoted(r.total_creator_fees.as_str(), &mut out);
    out.append("}");
    proof {
        assert(out@ =~= response_text(r@));
    }
    out
}

} // verus!
