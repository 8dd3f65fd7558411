//! Reading Firehose lines back: a line is a sequence of fields separated by
//! single spaces, and each field of each line reads back, as a decimal
//! number, a hexadecimal number or hexadecimal bytes, to the value it stands
//! for.
use vstd::prelude::*;
use crate::encoding::{
    all_zero, decimal, digit_char, digit_value, digits_value, hex_pairs, hex_pairs_value,
    is_decimal_digit, law_decimal_round_trip, law_hex_pairs_round_trip, lemma_digit_value,
};
use crate::firehose::{
    add_log_line, after_events, begin_apply_trx_line, begin_block_line, big_int_display,
    call_type_name, count_start_calls, end_block_line, events_allowed, evm_param_line,
    finalize_block_line, law_big_int_display, law_calls_numbered_in_order,
    law_end_call_closes_start_call, optional_address, trx_from_line, TracerState, TxEvent, end_apply_trx_line, evm_end_call_line,
    evm_run_call_line, hex_display, nonce_or_zero, optional_decimal, topics_text,
    transact_to_text, trx_execution_text, trx_fee_text, trx_identity_text, tx_type_number,
    CallType, TransactTo, TxData, TxEnv,
};
use crate::u256::{u256_be_bytes, Uint256};
use crate::u256::lower_hex;

verus! {

/// Whether a text holds no `sep` character.
pub open spec fn no_sep(s: Seq<char>, sep: char) -> bool {
    forall|i: int| 0 <= i < s.len() ==> s[i] != sep
}

/// Whether a text holds no space.
pub open spec fn no_spaces(s: Seq<char>) -> bool {
    no_sep(s, ' ')
}

/// The parts of a text between single `sep` characters, in order (a text
/// without `sep` is one part; two `sep` in a row enclose an empty part).
pub open spec fn split(s: Seq<char>, sep: char) -> Seq<Seq<char>>
    decreases s.len(),
{
    if s.len() == 0 {
        seq![Seq::<char>::empty()]
    } else {
        let f = split(s.drop_last(), sep);
        if s.last() == sep {
            f.push(Seq::<char>::empty())
        } else {
            f.update(f.len() - 1, f[f.len() - 1].push(s.last()))
        }
    }
}

/// The fields of a line: its parts between single spaces.
pub open spec fn fields(s: Seq<char>) -> Seq<Seq<char>> {
    split(s, ' ')
}

/// Parts joined by single `sep` characters.
pub open spec fn join(ws: Seq<Seq<char>>, sep: char) -> Seq<char>
    decreases ws.len(),
{
    if ws.len() == 0 {
        Seq::empty()
    } else if ws.len() == 1 {
        ws[0]
    } else {
        join(ws.drop_last(), sep) + seq![sep] + ws.last()
    }
}

/// Fields joined by single spaces.
pub open spec fn join_fields(ws: Seq<Seq<char>>) -> Seq<char> {
    join(ws, ' ')
}

/// Whether a character is a lower-case hexadecimal digit.
pub open spec fn is_hex_digit(c: char) -> bool {
    ('0' <= c <= '9') || ('a' <= c <= 'f')
}

/// A field that reads as the decimal text of `n`: decimal digits only, no
/// leading zero, standing for `n`.
pub open spec fn reads_decimal(field: Seq<char>, n: nat) -> bool {
    &&& field.len() > 0
    &&& forall|i: int| 0 <= i < field.len() ==> is_decimal_digit(#[trigger] field[i])
    &&& field.len() > 1 ==> field[0] != '0'
    &&& digits_value(field, 10) == n
}

/// A field that reads as the hexadecimal text of `n`: lower-case hexadecimal
/// digits only, no leading zero, standing for `n`.
pub open spec fn reads_hex_number(field: Seq<char>, n: nat) -> bool {
    &&& field.len() > 0
    &&& forall|i: int| 0 <= i < field.len() ==> is_hex_digit(#[trigger] field[i])
    &&& field.len() > 1 ==> field[0] != '0'
    &&& digits_value(field, 16) == n
}

/// A field that reads as bytes: two lower-case hexadecimal digits per byte.
pub open spec fn reads_hex_bytes(field: Seq<char>, bytes: Seq<u8>) -> bool {
    &&& field.len() == 2 * bytes.len()
    &&& forall|i: int| 0 <= i < field.len() ==> is_hex_digit(#[trigger] field[i])
    &&& hex_pairs_value(field) == bytes
}

/// A field that reads as bytes that may be absent: `"."` for no bytes or
/// all-zero bytes, otherwise the bytes in hexadecimal.
pub open spec fn reads_hex_or_dot(field: Seq<char>, bytes: Seq<u8>) -> bool {
    if bytes.len() == 0 || all_zero(bytes) {
        field == "."@
    } else {
        reads_hex_bytes(field, bytes)
    }
}

proof fn lemma_split_nonempty(s: Seq<char>, sep: char)
    ensures
        split(s, sep).len() >= 1,
    decreases s.len(),
{
    if s.len() > 0 {
        lemma_split_nonempty(s.drop_last(), sep);
    }
}

/// Appending text without `sep` extends the last part.
proof fn lemma_split_extend(p: Seq<char>, x: Seq<char>, sep: char)
    requires
        no_sep(x, sep),
    ensures
        split(p + x, sep) == split(p, sep).update(
            split(p, sep).len() - 1,
            split(p, sep)[split(p, sep).len() - 1] + x,
        ),
    decreases x.len(),
{
    lemma_split_nonempty(p, sep);
    let f = split(p, sep);
    if x.len() == 0 {
        assert(p + x =~= p);
        assert(f[f.len() - 1] + x =~= f[f.len() - 1]);
        assert(f.update(f.len() - 1, f[f.len() - 1] + x) =~= f);
    } else {
        let y = x.drop_last();
        assert(no_sep(y, sep));
        lemma_split_extend(p, y, sep);
        assert((p + x).drop_last() =~= p + y);
        assert((p + x).last() == x.last());
        assert(x.last() != sep);
        assert((f[f.len() - 1] + y).push(x.last()) =~= f[f.len() - 1] + x);
        assert(split(p + x, sep) =~= f.update(f.len() - 1, f[f.len() - 1] + x));
    }
}

/// Appending `sep` and then a text without `sep` adds that text as a new part.
proof fn lemma_split_append(p: Seq<char>, x: Seq<char>, sep: char)
    requires
        no_sep(x, sep),
    ensures
        split(p + seq![sep] + x, sep) == split(p, sep).push(x),
{
    let q = p + seq![sep];
    assert(q.drop_last() =~= p);
    assert(q.last() == sep);
    assert(split(q, sep) == split(p, sep).push(Seq::<char>::empty()));
    lemma_split_extend(q, x, sep);
    assert(Seq::<char>::empty() + x =~= x);
    assert(split(q + x, sep) =~= split(p, sep).push(x));
}

/// Appending text keeps every part but the last as it was.
proof fn lemma_split_prefix(p: Seq<char>, q: Seq<char>, sep: char)
    ensures
        split(p + q, sep).len() >= split(p, sep).len(),
        forall|k: int|
            0 <= k < split(p, sep).len() - 1 ==> #[trigger] split(p + q, sep)[k] == split(p, sep)[k],
    decreases q.len(),
{
    lemma_split_nonempty(p, sep);
    if q.len() == 0 {
        assert(p + q =~= p);
    } else {
        let r = q.drop_last();
        lemma_split_prefix(p, r, sep);
        lemma_split_nonempty(p + r, sep);
        assert((p + q).drop_last() =~= p + r);
    }
}

/// Splitting parts joined by `sep` gives the parts back, when none holds
/// `sep`.
pub proof fn lemma_split_of_join(ws: Seq<Seq<char>>, sep: char)
    requires
        ws.len() >= 1,
        forall|i: int| 0 <= i < ws.len() ==> no_sep(#[trigger] ws[i], sep),
    ensures
        split(join(ws, sep), sep) == ws,
    decreases ws.len(),
{
    if ws.len() == 1 {
        assert(no_sep(ws[0], sep));
        lemma_split_extend(Seq::<char>::empty(), ws[0], sep);
        assert(Seq::<char>::empty() + ws[0] =~= ws[0]);
        assert(split(Seq::<char>::empty(), sep) == seq![Seq::<char>::empty()]);
        assert(split(ws[0], sep) =~= ws);
    } else {
        let init = ws.drop_last();
        assert forall|i: int| 0 <= i < init.len() implies no_sep(#[trigger] init[i], sep) by {
            assert(init[i] == ws[i]);
        }
        lemma_split_of_join(init, sep);
        assert(no_sep(ws.last(), sep));
        lemma_split_append(join(init, sep), ws.last(), sep);
        assert(init.push(ws.last()) =~= ws);
    }
}

/// The fields of fields joined by spaces are those fields, when none holds a
/// space.
pub proof fn lemma_fields_of_join(ws: Seq<Seq<char>>)
    requires
        ws.len() >= 1,
        forall|i: int| 0 <= i < ws.len() ==> no_spaces(#[trigger] ws[i]),
    ensures
        fields(join_fields(ws)) == ws,
{
    lemma_split_of_join(ws, ' ');
}

/// The fields of fields joined by spaces and followed by a space and any
/// text start with those fields.
pub proof fn lemma_fields_of_join_then(ws: Seq<Seq<char>>, rest: Seq<char>)
    requires
        ws.len() >= 1,
        forall|i: int| 0 <= i < ws.len() ==> no_spaces(#[trigger] ws[i]),
    ensures
        fields(join_fields(ws) + seq![' '] + rest).len() >= ws.len() + 1,
        forall|k: int| 0 <= k < ws.len() ==> #[trigger] fields(join_fields(ws) + seq![' '] + rest)[k] == ws[k],
{
    lemma_split_of_join(ws, ' ');
    let p = join_fields(ws) + seq![' '];
    assert(p.drop_last() =~= join_fields(ws));
    assert(p.last() == ' ');
    assert(split(p, ' ') == ws.push(Seq::<char>::empty()));
    lemma_split_prefix(p, rest, ' ');
    assert forall|k: int| 0 <= k < ws.len() implies #[trigger] fields(p + rest)[k] == ws[k] by {
        assert(split(p, ' ')[k] == ws[k]);
    }
}

/// A hexadecimal digit character is a hexadecimal digit.
proof fn lemma_digit_char_hex(d: int)
    requires
        0 <= d < 16,
    ensures
        is_hex_digit(digit_char(d)),
        d < 10 ==> is_decimal_digit(digit_char(d)),
        digit_char(d) != ' ',
        digit_char(d) == '0' <==> d == 0,
{
    lemma_digit_value(d);
    assert(digit_value('0') == 0);
}

/// Hexadecimal digit pairs are hexadecimal digits, and read back to the bytes.
pub proof fn law_hex_pairs_reads(bytes: Seq<u8>)
    ensures
        reads_hex_bytes(hex_pairs(bytes), bytes),
        no_spaces(hex_pairs(bytes)),
    decreases bytes.len(),
{
    law_hex_pairs_round_trip(bytes);
    if bytes.len() > 0 {
        law_hex_pairs_reads(bytes.drop_last());
        let b = bytes.last();
        lemma_digit_char_hex((b / 16) as int);
        lemma_digit_char_hex((b % 16) as int);
        let s = hex_pairs(bytes);
        let t = hex_pairs(bytes.drop_last());
        assert forall|i: int| 0 <= i < s.len() implies is_hex_digit(#[trigger] s[i]) && s[i] != ' ' by {
            if i < t.len() {
                assert(s[i] == t[i]);
            }
        }
    }
}

/// Lower-case hexadecimal text of a number is hexadecimal digits without
/// leading zero that read back to the number.
pub proof fn law_lower_hex_reads(n: nat)
    ensures
        reads_hex_number(lower_hex(n), n),
        no_spaces(lower_hex(n)),
        lower_hex(n).len() == 1 <==> n < 16,
    decreases n,
{
    if n >= 16 {
        law_lower_hex_reads(n / 16);
        let s = lower_hex(n);
        let prefix = lower_hex(n / 16);
        assert(s.drop_last() =~= prefix);
        lemma_digit_char_hex((n % 16) as int);
        lemma_digit_value((n % 16) as int);
        assert(digits_value(s, 16) == digits_value(prefix, 16) * 16 + (n % 16) as int);
        assert(forall|i: int| 0 <= i < s.len() - 1 ==> s[i] == prefix[i]);
        if prefix.len() == 1 {
            lemma_digit_char_hex((n / 16) as int);
            assert(prefix[0] == digit_char((n / 16) as int));
        }
        assert(s[0] == prefix[0]);
    } else {
        lemma_digit_char_hex(n as int);
        lemma_digit_value(n as int);
        assert(lower_hex(n).drop_last() =~= Seq::<char>::empty());
        assert(digits_value(Seq::<char>::empty(), 16) == 0);
    }
}

/// Decimal text of a number reads back to the number.
pub proof fn law_decimal_reads(n: nat)
    ensures
        reads_decimal(decimal(n), n),
        no_spaces(decimal(n)),
{
    law_decimal_round_trip(n);
}

/// Two joined runs of fields, joined by a space, are the join of all the
/// fields.
pub proof fn lemma_join_concat(a: Seq<Seq<char>>, b: Seq<Seq<char>>)
    requires
        a.len() >= 1,
        b.len() >= 1,
    ensures
        join_fields(a) + seq![' '] + join_fields(b) == join_fields(a + b),
{
    lemma_join_concat_sep(a, b, ' ');
}

proof fn lemma_join_concat_sep(a: Seq<Seq<char>>, b: Seq<Seq<char>>, sep: char)
    requires
        a.len() >= 1,
        b.len() >= 1,
    ensures
        join(a, sep) + seq![sep] + join(b, sep) == join(a + b, sep),
    decreases b.len(),
{
    assert((a + b).drop_last() =~= a + b.drop_last());
    assert((a + b).last() == b.last());
    if b.len() == 1 {
        assert(a + b.drop_last() =~= a);
        assert(join(b, sep) == b[0]);
    } else {
        lemma_join_concat_sep(a, b.drop_last(), sep);
        assert(join(a, sep) + seq![sep] + join(b, sep) =~= join(a, sep) + seq![sep]
            + join(b.drop_last(), sep) + seq![sep] + b.last());
    }
}

/// `Hex` text reads back to its bytes, `"."` standing for none or all zero.
pub proof fn law_hex_display_reads(bytes: Seq<u8>)
    ensures
        reads_hex_or_dot(hex_display(bytes), bytes),
        no_spaces(hex_display(bytes)),
{
    reveal_strlit(".");
    law_hex_pairs_reads(bytes);
}

/// A field holding an optional number.
pub open spec fn reads_optional_decimal(field: Seq<char>, x: Option<nat>) -> bool {
    match x {
        Some(n) => reads_decimal(field, n),
        None => field == "."@,
    }
}

proof fn lemma_optional_decimal_reads(x: Option<crate::u256::Uint256>)
    ensures
        reads_optional_decimal(
            optional_decimal(x),
            match x {
                Some(v) => Some(v@),
                None => None,
            },
        ),
        no_spaces(optional_decimal(x)),
{
    reveal_strlit(".");
    if let Some(v) = x {
        law_decimal_reads(v@);
    }
}

/// The line that opens a transaction has 17 fields, and each reads back to
/// what it reports: `FIRE BEGIN_APPLY_TRX`, the hash (32 bytes), the
/// destination (20 bytes, `"."` for a creation), the value (hexadecimal
/// number), `v` (decimal), `r` and `s` (32 bytes each, `"."` when zero), the
/// gas limit (decimal), the gas price (hexadecimal number), the nonce
/// (decimal, 0 when absent), the input data (`"."` when none or zero),
/// `00`, the fee caps (decimal, `"."` when absent), the type number
/// (decimal) and `0`.
pub proof fn law_begin_apply_trx_fields(tx: TxData, env: TxEnv)
    ensures
        ({
            let f = fields(begin_apply_trx_line(tx, env));
            &&& f.len() == 17
            &&& f[0] == "FIRE"@
            &&& f[1] == "BEGIN_APPLY_TRX"@
            &&& reads_hex_bytes(f[2], tx.hash@)
            &&& match env.transact_to {
                TransactTo::Call(address) => reads_hex_bytes(f[3], address@),
                TransactTo::Create => f[3] == "."@,
            }
            &&& reads_hex_number(f[4], env.value@)
            &&& reads_decimal(f[5], tx.v as nat)
            &&& reads_hex_or_dot(f[6], tx.r@)
            &&& reads_hex_or_dot(f[7], tx.s@)
            &&& reads_decimal(f[8], env.gas_limit as nat)
            &&& reads_hex_number(f[9], env.gas_price@)
            &&& reads_decimal(f[10], nonce_or_zero(env.nonce))
            &&& reads_hex_or_dot(f[11], env.data@)
            &&& f[12] == "00"@
            &&& reads_optional_decimal(
                f[13],
                match tx.max_fee_per_gas {
                    Some(v) => Some(v@),
                    None => None,
                },
            )
            &&& reads_optional_decimal(
                f[14],
                match tx.max_priority_fee_per_gas {
                    Some(v) => Some(v@),
                    None => None,
                },
            )
            &&& reads_decimal(f[15], tx_type_number(tx.tx_type) as nat)
            &&& f[16] == "0"@
        }),
{
    let to_text = transact_to_text(env.transact_to);
    let head = seq!["FIRE"@, "BEGIN_APPLY_TRX"@];
    let identity = seq![
        hex_pairs(tx.hash@),
        to_text,
        lower_hex(env.value@),
        decimal(tx.v as nat),
        hex_display(tx.r@),
        hex_display(tx.s@),
    ];
    let execution = seq![
        decimal(env.gas_limit as nat),
        lower_hex(env.gas_price@),
        decimal(nonce_or_zero(env.nonce)),
        hex_display(env.data@),
        "00"@,
    ];
    let fee = seq![
        optional_decimal(tx.max_fee_per_gas),
        optional_decimal(tx.max_priority_fee_per_gas),
        decimal(tx_type_number(tx.tx_type) as nat),
        "0"@,
    ];
    assert("FIRE BEGIN_APPLY_TRX "@ =~= join_fields(head) + seq![' ']) by {
        reveal_strlit("FIRE BEGIN_APPLY_TRX ");
        reveal_strlit("FIRE");
        reveal_strlit("BEGIN_APPLY_TRX");
        reveal_with_fuel(join, 3);
    }
    assert(trx_identity_text(tx, env) =~= join_fields(identity)) by {
        reveal_with_fuel(join, 7);
    }
    assert(trx_execution_text(env) =~= join_fields(execution)) by {
        reveal_strlit(" 00");
        reveal_strlit("00");
        reveal_with_fuel(join, 6);
    }
    assert(trx_fee_text(tx) =~= join_fields(fee)) by {
        reveal_strlit(" 0");
        reveal_strlit("0");
        reveal_with_fuel(join, 5);
    }
    lemma_join_concat(head, identity);
    lemma_join_concat(head + identity, execution);
    lemma_join_concat(head + identity + execution, fee);
    let ws = head + identity + execution + fee;
    assert(begin_apply_trx_line(tx, env) == join_fields(ws));

    reveal_strlit("FIRE");
    reveal_strlit("BEGIN_APPLY_TRX");
    reveal_strlit("00");
    reveal_strlit("0");
    reveal_strlit(".");
    law_hex_pairs_reads(tx.hash@);
    match env.transact_to {
        TransactTo::Call(address) => law_hex_pairs_reads(address@),
        TransactTo::Create => {},
    }
    law_lower_hex_reads(env.value@);
    law_decimal_reads(tx.v as nat);
    law_hex_display_reads(tx.r@);
    law_hex_display_reads(tx.s@);
    law_decimal_reads(env.gas_limit as nat);
    law_lower_hex_reads(env.gas_price@);
    law_decimal_reads(nonce_or_zero(env.nonce));
    law_hex_display_reads(env.data@);
    lemma_optional_decimal_reads(tx.max_fee_per_gas);
    lemma_optional_decimal_reads(tx.max_priority_fee_per_gas);
    law_decimal_reads(tx_type_number(tx.tx_type) as nat);
    assert(no_spaces("FIRE"@));
    assert(no_spaces("BEGIN_APPLY_TRX"@));
    assert(no_spaces("00"@));
    assert(no_spaces("0"@));
    assert(no_spaces(to_text));
    assert(ws =~= seq![
        "FIRE"@,
        "BEGIN_APPLY_TRX"@,
        hex_pairs(tx.hash@),
        to_text,
        lower_hex(env.value@),
        decimal(tx.v as nat),
        hex_display(tx.r@),
        hex_display(tx.s@),
        decimal(env.gas_limit as nat),
        lower_hex(env.gas_price@),
        decimal(nonce_or_zero(env.nonce)),
        hex_display(env.data@),
        "00"@,
        optional_decimal(tx.max_fee_per_gas),
        optional_decimal(tx.max_priority_fee_per_gas),
        decimal(tx_type_number(tx.tx_type) as nat),
        "0"@,
    ]);
    assert forall|i: int| 0 <= i < ws.len() implies no_spaces(#[trigger] ws[i]) by {}
    lemma_fields_of_join(ws);
}

/// `Hex` text holds neither a space nor a comma.
proof fn lemma_hex_display_no_comma(bytes: Seq<u8>)
    ensures
        no_sep(hex_display(bytes), ','),
        no_sep(hex_display(bytes), ' '),
{
    reveal_strlit(".");
    law_hex_pairs_reads(bytes);
    let h = hex_pairs(bytes);
    assert forall|i: int| 0 <= i < h.len() implies h[i] != ',' by {
        assert(is_hex_digit(h[i]));
    }
}

/// Parts joined by `sep` hold a character `c` other than `sep` only where a
/// part holds it.
proof fn lemma_join_no(ws: Seq<Seq<char>>, sep: char, c: char)
    requires
        sep != c,
        forall|i: int| 0 <= i < ws.len() ==> no_sep(#[trigger] ws[i], c),
    ensures
        no_sep(join(ws, sep), c),
    decreases ws.len(),
{
    if ws.len() > 1 {
        let init = ws.drop_last();
        assert forall|i: int| 0 <= i < init.len() implies no_sep(#[trigger] init[i], c) by {
            assert(init[i] == ws[i]);
        }
        lemma_join_no(init, sep, c);
        assert(no_sep(ws.last(), c));
        let j = join(ws, sep);
        let a = join(init, sep);
        assert forall|i: int| 0 <= i < j.len() implies j[i] != c by {
            if i < a.len() {
                assert(j[i] == a[i]);
            } else if i > a.len() {
                assert(j[i] == ws.last()[i - a.len() - 1]);
            }
        }
    } else if ws.len() == 1 {
        assert(no_sep(ws[0], c));
    }
}

/// The topics of a log, each as `Hex` shows it.
pub open spec fn topic_texts(topics: Seq<[u8; 32]>) -> Seq<Seq<char>> {
    Seq::new(topics.len(), |k: int| hex_display(topics[k]@))
}

/// The topics text is the topics joined by commas.
proof fn lemma_topics_text_join(topics: Seq<[u8; 32]>)
    requires
        topics.len() >= 1,
    ensures
        topics_text(topics) == join(topic_texts(topics), ','),
    decreases topics.len(),
{
    let ts = topic_texts(topics);
    if topics.len() == 1 {
        assert(join(ts, ',') == ts[0]);
    } else {
        lemma_topics_text_join(topics.drop_last());
        assert(topic_texts(topics.drop_last()) =~= ts.drop_last());
        assert(topics_text(topics.drop_last()).push(',') =~= topics_text(topics.drop_last())
            + seq![',']);
    }
}

/// The topics field holds no space, and splits at commas into the topics,
/// each reading back as `Hex` bytes (`"."` for a zero topic); it is empty
/// when there are no topics.
pub proof fn law_topics_text_reads(topics: Seq<[u8; 32]>)
    ensures
        no_spaces(topics_text(topics)),
        topics.len() == 0 ==> topics_text(topics) == Seq::<char>::empty(),
        topics.len() > 0 ==> {
            let parts = split(topics_text(topics), ',');
            &&& parts.len() == topics.len()
            &&& forall|k: int| 0 <= k < topics.len() ==> reads_hex_or_dot(#[trigger] parts[k], topics[k]@)
        },
{
    if topics.len() > 0 {
        let ts = topic_texts(topics);
        lemma_topics_text_join(topics);
        assert forall|i: int| 0 <= i < ts.len() implies no_sep(#[trigger] ts[i], ',') && no_sep(
            ts[i],
            ' ',
        ) by {
            lemma_hex_display_no_comma(topics[i]@);
        }
        lemma_split_of_join(ts, ',');
        lemma_join_no(ts, ',', ' ');
        assert forall|k: int| 0 <= k < topics.len() implies reads_hex_or_dot(
            #[trigger] split(topics_text(topics), ',')[k],
            topics[k]@,
        ) by {
            law_hex_display_reads(topics[k]@);
        }
    }
}

/// The line that ends a transaction: after `FIRE END_APPLY_TRX` come the gas
/// used (decimal), `.`, the cumulative gas used (decimal), the logs bloom
/// (every one of its 256 bytes as two hexadecimal digits, 512 characters,
/// whatever the bloom), `0`, and then the logs text, which ends the line.
pub proof fn law_end_apply_trx_fields(
    gas_used: Uint256,
    cumulative_gas_used: Uint256,
    bloom: [u8; 256],
    logs: Seq<char>,
)
    ensures
        ({
            let line = end_apply_trx_line(gas_used, cumulative_gas_used, bloom, logs);
            let f = fields(line);
            &&& f.len() >= 8
            &&& f[0] == "FIRE"@
            &&& f[1] == "END_APPLY_TRX"@
            &&& reads_decimal(f[2], gas_used@)
            &&& f[3] == "."@
            &&& reads_decimal(f[4], cumulative_gas_used@)
            &&& reads_hex_bytes(f[5], bloom@)
            &&& f[5].len() == 512
            &&& f[6] == "0"@
            &&& line.subrange(line.len() - logs.len(), line.len() as int) == logs
        }),
{
    let ws = seq![
        "FIRE"@,
        "END_APPLY_TRX"@,
        decimal(gas_used@),
        "."@,
        decimal(cumulative_gas_used@),
        hex_pairs(bloom@),
        "0"@,
    ];
    let line = end_apply_trx_line(gas_used, cumulative_gas_used, bloom, logs);
    assert(line =~= join_fields(ws) + seq![' '] + logs) by {
        reveal_strlit("FIRE END_APPLY_TRX ");
        reveal_strlit("FIRE");
        reveal_strlit("END_APPLY_TRX");
        reveal_strlit(" . ");
        reveal_strlit(".");
        reveal_strlit(" 0 ");
        reveal_strlit("0");
        reveal_with_fuel(join, 8);
    }
    reveal_strlit("FIRE");
    reveal_strlit("END_APPLY_TRX");
    reveal_strlit(".");
    reveal_strlit("0");
    law_decimal_reads(gas_used@);
    law_decimal_reads(cumulative_gas_used@);
    law_hex_pairs_reads(bloom@);
    assert(no_spaces("FIRE"@));
    assert(no_spaces("END_APPLY_TRX"@));
    assert(no_spaces("."@));
    assert(no_spaces("0"@));
    assert forall|i: int| 0 <= i < ws.len() implies no_spaces(#[trigger] ws[i]) by {}
    lemma_fields_of_join_then(ws, logs);
    assert(line.subrange(line.len() - logs.len(), line.len() as int) =~= logs);
}

/// Call kind names hold no space.
proof fn lemma_call_type_name_no_spaces(t: CallType)
    ensures
        no_spaces(call_type_name(t)),
        call_type_name(t).len() > 0,
{
    reveal_strlit("CALL");
    reveal_strlit("CREATE");
    reveal_strlit("CALLCODE");
    reveal_strlit("STATIC");
    reveal_strlit("DELEGATE");
}

/// The line that opens a call: `FIRE EVM_RUN_CALL`, the call kind, the
/// call's index in decimal, and `0`.
pub proof fn law_evm_run_call_fields(call_type: CallType, call_index: u64)
    ensures
        ({
            let f = fields(evm_run_call_line(call_type, call_index));
            &&& f.len() == 5
            &&& f[0] == "FIRE"@
            &&& f[1] == "EVM_RUN_CALL"@
            &&& f[2] == call_type_name(call_type)
            &&& reads_decimal(f[3], call_index as nat)
            &&& f[4] == "0"@
        }),
{
    let ws = seq![
        "FIRE"@,
        "EVM_RUN_CALL"@,
        call_type_name(call_type),
        decimal(call_index as nat),
        "0"@,
    ];
    assert(evm_run_call_line(call_type, call_index) =~= join_fields(ws)) by {
        reveal_strlit("FIRE EVM_RUN_CALL ");
        reveal_strlit("FIRE");
        reveal_strlit("EVM_RUN_CALL");
        reveal_strlit(" 0");
        reveal_strlit("0");
        reveal_with_fuel(join, 6);
    }
    reveal_strlit("FIRE");
    reveal_strlit("EVM_RUN_CALL");
    reveal_strlit("0");
    law_decimal_reads(call_index as nat);
    lemma_call_type_name_no_spaces(call_type);
    assert(no_spaces("FIRE"@));
    assert(no_spaces("EVM_RUN_CALL"@));
    assert(no_spaces("0"@));
    assert forall|i: int| 0 <= i < ws.len() implies no_spaces(#[trigger] ws[i]) by {}
    lemma_fields_of_join(ws);
}

/// The line that closes a call: `FIRE EVM_END_CALL`, the closed call's index
/// in decimal, the gas left in decimal, the return value (`"."` when none or
/// zero), and `0`.
pub proof fn law_evm_end_call_fields(call_index: u64, gas_left: u64, return_value: Seq<u8>)
    ensures
        ({
            let f = fields(evm_end_call_line(call_index, gas_left, return_value));
            &&& f.len() == 6
            &&& f[0] == "FIRE"@
            &&& f[1] == "EVM_END_CALL"@
            &&& reads_decimal(f[2], call_index as nat)
            &&& reads_decimal(f[3], gas_left as nat)
            &&& reads_hex_or_dot(f[4], return_value)
            &&& f[5] == "0"@
        }),
{
    let ws = seq![
        "FIRE"@,
        "EVM_END_CALL"@,
        decimal(call_index as nat),
        decimal(gas_left as nat),
        hex_display(return_value),
        "0"@,
    ];
    assert(evm_end_call_line(call_index, gas_left, return_value) =~= join_fields(ws)) by {
        reveal_strlit("FIRE EVM_END_CALL ");
        reveal_strlit("FIRE");
        reveal_strlit("EVM_END_CALL");
        reveal_strlit(" 0");
        reveal_strlit("0");
        reveal_with_fuel(join, 7);
    }
    reveal_strlit("FIRE");
    reveal_strlit("EVM_END_CALL");
    reveal_strlit("0");
    law_decimal_reads(call_index as nat);
    law_decimal_reads(gas_left as nat);
    law_hex_display_reads(return_value);
    assert(no_spaces("FIRE"@));
    assert(no_spaces("EVM_END_CALL"@));
    assert(no_spaces("0"@));
    assert forall|i: int| 0 <= i < ws.len() implies no_spaces(#[trigger] ws[i]) by {}
    lemma_fields_of_join(ws);
}

/// The line of a log: `FIRE ADD_LOG`, the active call's index in decimal,
/// `0`, the address (20 bytes), the topics (see `law_topics_text_reads`),
/// the data (`"."` when none or zero), and `0`.
pub proof fn law_add_log_fields(
    call_index: u64,
    address: [u8; 20],
    topics: Seq<[u8; 32]>,
    data: Seq<u8>,
)
    ensures
        ({
            let f = fields(add_log_line(call_index, address, topics, data));
            &&& f.len() == 8
            &&& f[0] == "FIRE"@
            &&& f[1] == "ADD_LOG"@
            &&& reads_decimal(f[2], call_index as nat)
            &&& f[3] == "0"@
            &&& reads_hex_bytes(f[4], address@)
            &&& f[5] == topics_text(topics)
            &&& reads_hex_or_dot(f[6], data)
            &&& f[7] == "0"@
        }),
{
    let ws = seq![
        "FIRE"@,
        "ADD_LOG"@,
        decimal(call_index as nat),
        "0"@,
        hex_pairs(address@),
        topics_text(topics),
        hex_display(data),
        "0"@,
    ];
    assert(add_log_line(call_index, address, topics, data) =~= join_fields(ws)) by {
        reveal_strlit("FIRE ADD_LOG ");
        reveal_strlit("FIRE");
        reveal_strlit("ADD_LOG");
        reveal_strlit(" 0 ");
        reveal_strlit(" 0");
        reveal_strlit("0");
        reveal_with_fuel(join, 9);
    }
    reveal_strlit("FIRE");
    reveal_strlit("ADD_LOG");
    reveal_strlit("0");
    law_decimal_reads(call_index as nat);
    law_hex_pairs_reads(address@);
    law_topics_text_reads(topics);
    law_hex_display_reads(data);
    assert(no_spaces("FIRE"@));
    assert(no_spaces("ADD_LOG"@));
    assert(no_spaces("0"@));
    assert forall|i: int| 0 <= i < ws.len() implies no_spaces(#[trigger] ws[i]) by {}
    lemma_fields_of_join(ws);
}

/// The line that starts a block: `FIRE BEGIN_BLOCK` and the block number in
/// decimal.
pub proof fn law_begin_block_fields(number: u64)
    ensures
        ({
            let f = fields(begin_block_line(number));
            &&& f.len() == 3
            &&& f[0] == "FIRE"@
            &&& f[1] == "BEGIN_BLOCK"@
            &&& reads_decimal(f[2], number as nat)
        }),
{
    let ws = seq!["FIRE"@, "BEGIN_BLOCK"@, decimal(number as nat)];
    assert(begin_block_line(number) =~= join_fields(ws)) by {
        reveal_strlit("FIRE BEGIN_BLOCK ");
        reveal_strlit("FIRE");
        reveal_strlit("BEGIN_BLOCK");
        reveal_with_fuel(join, 4);
    }
    reveal_strlit("FIRE");
    reveal_strlit("BEGIN_BLOCK");
    law_decimal_reads(number as nat);
    assert(no_spaces("FIRE"@));
    assert(no_spaces("BEGIN_BLOCK"@));
    assert forall|i: int| 0 <= i < ws.len() implies no_spaces(#[trigger] ws[i]) by {}
    lemma_fields_of_join(ws);
}

/// The line that finalizes a block: `FIRE FINALIZE_BLOCK` and the block
/// number in decimal.
pub proof fn law_finalize_block_fields(number: u64)
    ensures
        ({
            let f = fields(finalize_block_line(number));
            &&& f.len() == 3
            &&& f[0] == "FIRE"@
            &&& f[1] == "FINALIZE_BLOCK"@
            &&& reads_decimal(f[2], number as nat)
        }),
{
    let ws = seq!["FIRE"@, "FINALIZE_BLOCK"@, decimal(number as nat)];
    assert(finalize_block_line(number) =~= join_fields(ws)) by {
        reveal_strlit("FIRE FINALIZE_BLOCK ");
        reveal_strlit("FIRE");
        reveal_strlit("FINALIZE_BLOCK");
        reveal_with_fuel(join, 4);
    }
    reveal_strlit("FIRE");
    reveal_strlit("FINALIZE_BLOCK");
    law_decimal_reads(number as nat);
    assert(no_spaces("FIRE"@));
    assert(no_spaces("FINALIZE_BLOCK"@));
    assert forall|i: int| 0 <= i < ws.len() implies no_spaces(#[trigger] ws[i]) by {}
    lemma_fields_of_join(ws);
}

/// The line that ends a block: `FIRE END_BLOCK`, the block number and the
/// block size in decimal, then the end data, which ends the line.
pub proof fn law_end_block_fields(number: Uint256, size: usize, data: Seq<char>)
    ensures
        ({
            let line = end_block_line(number, size, data);
            let f = fields(line);
            &&& f.len() >= 5
            &&& f[0] == "FIRE"@
            &&& f[1] == "END_BLOCK"@
            &&& reads_decimal(f[2], number@)
            &&& reads_decimal(f[3], size as nat)
            &&& line.subrange(line.len() - data.len(), line.len() as int) == data
        }),
{
    let ws = seq!["FIRE"@, "END_BLOCK"@, decimal(number@), decimal(size as nat)];
    let line = end_block_line(number, size, data);
    assert(line =~= join_fields(ws) + seq![' '] + data) by {
        reveal_strlit("FIRE END_BLOCK ");
        reveal_strlit("FIRE");
        reveal_strlit("END_BLOCK");
        reveal_with_fuel(join, 5);
    }
    reveal_strlit("FIRE");
    reveal_strlit("END_BLOCK");
    law_decimal_reads(number@);
    law_decimal_reads(size as nat);
    assert(no_spaces("FIRE"@));
    assert(no_spaces("END_BLOCK"@));
    assert forall|i: int| 0 <= i < ws.len() implies no_spaces(#[trigger] ws[i]) by {}
    lemma_fields_of_join_then(ws, data);
    assert(line.subrange(line.len() - data.len(), line.len() as int) =~= data);
}

/// The line that names a transaction's sender: `FIRE TRX_FROM` and the
/// sender's 20 bytes.
pub proof fn law_trx_from_fields(caller: [u8; 20])
    ensures
        ({
            let f = fields(trx_from_line(caller));
            &&& f.len() == 3
            &&& f[0] == "FIRE"@
            &&& f[1] == "TRX_FROM"@
            &&& reads_hex_bytes(f[2], caller@)
        }),
{
    let ws = seq!["FIRE"@, "TRX_FROM"@, hex_pairs(caller@)];
    assert(trx_from_line(caller) =~= join_fields(ws)) by {
        reveal_strlit("FIRE TRX_FROM ");
        reveal_strlit("FIRE");
        reveal_strlit("TRX_FROM");
        reveal_with_fuel(join, 4);
    }
    reveal_strlit("FIRE");
    reveal_strlit("TRX_FROM");
    law_hex_pairs_reads(caller@);
    assert(no_spaces("FIRE"@));
    assert(no_spaces("TRX_FROM"@));
    assert forall|i: int| 0 <= i < ws.len() implies no_spaces(#[trigger] ws[i]) by {}
    lemma_fields_of_join(ws);
}

/// The line of a call's parameters: `FIRE EVM_PARAM`, the call kind, the
/// active call's index in decimal, the sender (20 bytes), the destination
/// (20 bytes, `"."` when absent), the value (`"."` for zero, else its 32
/// big-endian bytes), the gas limit in decimal, and the input (`"."` when
/// none or zero).
pub proof fn law_evm_param_fields(
    call_type: CallType,
    call_index: u64,
    from: [u8; 20],
    to: Option<[u8; 20]>,
    value: Uint256,
    gas_limit: u64,
    input: Seq<u8>,
)
    ensures
        ({
            let f = fields(evm_param_line(call_type, call_index, from, to, value, gas_limit, input));
            &&& f.len() == 9
            &&& f[0] == "FIRE"@
            &&& f[1] == "EVM_PARAM"@
            &&& f[2] == call_type_name(call_type)
            &&& reads_decimal(f[3], call_index as nat)
            &&& reads_hex_bytes(f[4], from@)
            &&& match to {
                Some(address) => reads_hex_bytes(f[5], address@),
                None => f[5] == "."@,
            }
            &&& (if value@ == 0 {
                f[6] == "."@
            } else {
                reads_hex_bytes(f[6], u256_be_bytes(value))
            })
            &&& reads_decimal(f[7], gas_limit as nat)
            &&& reads_hex_or_dot(f[8], input)
        }),
{
    let ws = seq![
        "FIRE"@,
        "EVM_PARAM"@,
        call_type_name(call_type),
        decimal(call_index as nat),
        hex_pairs(from@),
        optional_address(to),
        big_int_display(value),
        decimal(gas_limit as nat),
        hex_display(input),
    ];
    assert(evm_param_line(call_type, call_index, from, to, value, gas_limit, input) =~= join_fields(
        ws,
    )) by {
        reveal_strlit("FIRE EVM_PARAM ");
        reveal_strlit("FIRE");
        reveal_strlit("EVM_PARAM");
        reveal_with_fuel(join, 10);
    }
    reveal_strlit("FIRE");
    reveal_strlit("EVM_PARAM");
    reveal_strlit(".");
    lemma_call_type_name_no_spaces(call_type);
    law_decimal_reads(call_index as nat);
    law_hex_pairs_reads(from@);
    match to {
        Some(address) => law_hex_pairs_reads(address@),
        None => {},
    }
    law_big_int_display(value);
    law_hex_pairs_reads(u256_be_bytes(value));
    law_decimal_reads(gas_limit as nat);
    law_hex_display_reads(input);
    assert(no_spaces("FIRE"@));
    assert(no_spaces("EVM_PARAM"@));
    assert(no_spaces(optional_address(to)));
    assert(no_spaces(big_int_display(value)));
    assert forall|i: int| 0 <= i < ws.len() implies no_spaces(#[trigger] ws[i]) by {}
    lemma_fields_of_join(ws);
}

/// The closing line of a call reports, in decimal, the same index as the
/// line that opened it; so does every log line printed while the call is
/// the innermost one open.
pub proof fn law_call_lines_agree(
    st: TracerState,
    call_type: CallType,
    gas_left: u64,
    return_value: Seq<u8>,
    address: [u8; 20],
    topics: Seq<[u8; 32]>,
    data: Seq<u8>,
)
    requires
        st.wf(),
        st.can_start_call(),
    ensures
        ({
            let opened = st.after_start_call();
            let run = fields(evm_run_call_line(call_type, opened.call_index_counter));
            let end = fields(evm_end_call_line(opened.call_stack.last(), gas_left, return_value));
            let log = fields(add_log_line(opened.active_call_index, address, topics, data));
            &&& reads_decimal(run[3], opened.call_index_counter as nat)
            &&& reads_decimal(end[2], opened.call_index_counter as nat)
            &&& reads_decimal(log[2], opened.call_index_counter as nat)
        }),
{
    let opened = st.after_start_call();
    law_end_call_closes_start_call(st);
    law_evm_run_call_fields(call_type, opened.call_index_counter);
    law_evm_end_call_fields(opened.call_stack.last(), gas_left, return_value);
    law_add_log_fields(opened.active_call_index, address, topics, data);
}

/// The n-th call opened in a transaction prints n, in decimal, as its index,
/// whatever allowed events come between.
pub proof fn law_nth_call_prints_n(
    st: TracerState,
    tx: TxData,
    es: Seq<TxEvent>,
    i: int,
    call_type: CallType,
)
    requires
        events_allowed(st.after_start_transaction(tx), es),
        0 <= i < es.len(),
        es[i] == TxEvent::StartCall,
    ensures
        ({
            let opened = after_events(st.after_start_transaction(tx), es.take(i + 1));
            reads_decimal(
                fields(evm_run_call_line(call_type, opened.call_index_counter))[3],
                count_start_calls(es.take(i + 1)),
            )
        }),
{
    law_calls_numbered_in_order(st, tx, es);
    let opened = after_events(st.after_start_transaction(tx), es.take(i + 1));
    law_evm_run_call_fields(call_type, opened.call_index_counter);
}

} // verus!
