//! Per-tick decision logic of the producer and consumer loops.
//!
//! Both loops are driven by outside timers: the producer every two seconds,
//! the consumer every ten milliseconds. Each tick the loop runner performs
//! the transport call and hands the outcome to the functions here, which
//! make every decision — what content the next message carries, and what
//! reaches the display queue. A failed publish drops its message and the
//! loop carries on; an absent received message is the common case and
//! changes nothing.

use vstd::prelude::*;
use vstd::string::StringExecFns;
use vstd::utf8::{encode_utf8, is_ascii_chars, is_ascii_chars_encode_utf8};
use crate::display::{display_after_push, DisplayQueue};
use crate::message::{content_bytes_valid, msg_valid, now_timestamp, DDSMessage};

verus! {

/// The decimal digit characters.
pub open spec fn digit_char(d: nat) -> char {
    if d == 0 {
        '0'
    } else if d == 1 {
        '1'
    } else if d == 2 {
        '2'
    } else if d == 3 {
        '3'
    } else if d == 4 {
        '4'
    } else if d == 5 {
        '5'
    } else if d == 6 {
        '6'
    } else if d == 7 {
        '7'
    } else if d == 8 {
        '8'
    } else {
        '9'
    }
}

/// The decimal rendering of a number, most significant digit first, with no
/// leading zeros (a lone zero renders as "0").
pub open spec fn decimal_digits(n: nat) -> Seq<char>
    decreases n,
{
    if n < 10 {
        seq![digit_char(n)]
    } else {
        decimal_digits(n / 10).push(digit_char(n % 10))
    }
}

/// The content of the producer's n-th message.
pub open spec fn producer_content(counter: nat) -> Seq<char> {
    "Hello World #"@ + decimal_digits(counter)
}

/// Appends one decimal digit character.
fn append_digit(s: &mut String, d: u64)
    requires
        d < 10,
    ensures
        final(s)@ == old(s)@ + seq![digit_char(d as nat)],
{
    let digit: &str = match d {
        0 => "0",
        1 => "1",
        2 => "2",
        3 => "3",
        4 => "4",
        5 => "5",
        6 => "6",
        7 => "7",
        8 => "8",
        _ => "9",
    };
    proof {
        reveal_strlit("0");
        reveal_strlit("1");
        reveal_strlit("2");
        reveal_strlit("3");
        reveal_strlit("4");
        reveal_strlit("5");
        reveal_strlit("6");
        reveal_strlit("7");
        reveal_strlit("8");
        reveal_strlit("9");
        assert(digit@ =~= seq![digit_char(d as nat)]);
    }
    s.append(digit);
}

/// The digit characters of a remainder stack, read top first.
spec fn digits_rev_chars(ds: Seq<u64>) -> Seq<char> {
    Seq::new(ds.len(), |i: int| digit_char(ds[ds.len() - 1 - i] as nat))
}

/// Appends the decimal rendering of `n`.
fn append_decimal(s: &mut String, n: u64)
    ensures
        final(s)@ == old(s)@ + decimal_digits(n as nat),
{
    if n == 0 {
        append_digit(s, 0);
        return;
    }
    let mut digits: Vec<u64> = Vec::new();
    let mut m = n;
    proof {
        assert(decimal_digits(n as nat) =~= decimal_digits(m as nat) + digits_rev_chars(digits@));
    }
    while m > 0
        invariant
            forall|i: int| 0 <= i < digits@.len() ==> digits@[i] < 10,
            m as nat > 0 ==> decimal_digits(n as nat) == decimal_digits(m as nat)
                + digits_rev_chars(digits@),
            m == 0 ==> decimal_digits(n as nat) == digits_rev_chars(digits@),
        decreases m,
    {
        let d = m % 10;
        let ghost prev = digits@;
        digits.push(d);
        proof {
            assert forall|i: int| 0 <= i < prev.len() implies digits_rev_chars(digits@)[i + 1]
                == digits_rev_chars(prev)[i] by {
                assert(digits@[digits@.len() - 1 - (i + 1)] == prev[prev.len() - 1 - i]);
            }
            assert(digits_rev_chars(digits@) =~= seq![digit_char(d as nat)] + digits_rev_chars(
                prev,
            ));
            if m >= 10 {
                assert(decimal_digits(m as nat) == decimal_digits((m / 10) as nat).push(
                    digit_char((m % 10) as nat),
                ));
                assert(decimal_digits((m / 10) as nat) + digits_rev_chars(digits@)
                    =~= decimal_digits(m as nat) + digits_rev_chars(prev));
            } else {
                assert(decimal_digits(m as nat) =~= seq![digit_char(m as nat)]);
                assert(digits_rev_chars(digits@) =~= decimal_digits(m as nat)
                    + digits_rev_chars(prev));
            }
        }
        m = m / 10;
    }
    let mut i: usize = digits.len();
    proof {
        assert(s@ =~= old(s)@ + decimal_digits(n as nat).subrange(0, 0));
    }
    while i > 0
        invariant
            i <= digits@.len(),
            forall|j: int| 0 <= j < digits@.len() ==> digits@[j] < 10,
            decimal_digits(n as nat) == digits_rev_chars(digits@),
            s@ == old(s)@ + decimal_digits(n as nat).subrange(
                0,
                digits@.len() - i,
            ),
        decreases i,
    {
        i -= 1;
        append_digit(s, digits[i]);
        proof {
            let k = digits@.len() - 1 - i;
            assert(digits_rev_chars(digits@)[k] == digit_char(digits@[i as int] as nat));
            assert(s@ =~= old(s)@ + decimal_digits(n as nat).subrange(0, k + 1));
        }
    }
    proof {
        assert(decimal_digits(n as nat).subrange(0, decimal_digits(n as nat).len() as int)
            =~= decimal_digits(n as nat));
    }
}

/// Ten to the given power.
spec fn pow10(k: nat) -> nat
    decreases k,
{
    if k == 0 {
        1
    } else {
        10 * pow10((k - 1) as nat)
    }
}

/// Every character of a decimal rendering is a digit, and there is at least
/// one.
proof fn lemma_decimal_digit_chars(n: nat)
    ensures
        decimal_digits(n).len() >= 1,
        forall|i: int|
            0 <= i < decimal_digits(n).len() ==> '0' <= #[trigger] decimal_digits(n)[i] <= '9',
    decreases n,
{
    if n >= 10 {
        lemma_decimal_digit_chars(n / 10);
    }
}

/// A number below ten to the k-th renders in at most k digits.
proof fn lemma_decimal_digits_len(n: nat, k: nat)
    requires
        n < pow10(k),
        k >= 1,
    ensures
        decimal_digits(n).len() <= k,
    decreases n,
{
    if n >= 10 {
        assert(pow10(k) == 10 * pow10((k - 1) as nat));
        if k == 1 {
            assert(pow10(1nat) == 10);
        }
        assert(n / 10 < pow10((k - 1) as nat)) by (nonlinear_arith)
            requires
                n < 10 * pow10((k - 1) as nat),
        ;
        lemma_decimal_digits_len(n / 10, (k - 1) as nat);
    }
}

/// Every message the producer builds carries valid transport content: a
/// short ASCII label with no zero byte, well under the wire format's
/// ceiling. Publishing such a message is never rejected.
pub proof fn lemma_producer_content_valid(counter: nat)
    requires
        counter <= u64::MAX,
    ensures
        content_bytes_valid(encode_utf8(producer_content(counter))),
{
    let prefix = "Hello World #"@;
    let digits = decimal_digits(counter);
    let content = producer_content(counter);
    reveal_strlit("Hello World #");
    lemma_decimal_digit_chars(counter);
    assert(counter < pow10(20nat)) by {
        reveal_with_fuel(pow10, 21);
    }
    lemma_decimal_digits_len(counter, 20nat);
    assert forall|i: int| 0 <= i < content.len() implies ' ' <= #[trigger] content[i]
        <= '\u{7f}' by {
        if i >= 13 {
            assert(content[i] == digits[i - 13]);
        }
    }
    assert(is_ascii_chars(content));
    is_ascii_chars_encode_utf8(content);
    assert(content.len() <= 33);
    assert forall|i: int| 0 <= i < encode_utf8(content).len() implies encode_utf8(content)[i]
        != 0u8 by {
        assert(encode_utf8(content)[i] == content[i] as u8);
        assert(' ' <= content[i] <= '\u{7f}');
    }
}

/// Builds the producer's next message: the counter advances by one and the
/// message carries "Hello World #" followed by the new counter value. The
/// content is always valid transport content, so publishing it is never
/// rejected.
///
/// The message is stamped with the current time, clamped to no earlier than
/// `last_timestamp` — the stamp of the previously built message, which the
/// loop runner carries from tick to tick. Timestamps within one producer
/// run are therefore non-decreasing whatever the clock does.
pub fn producer_tick(counter: u64, last_timestamp: i64) -> (r: (u64, DDSMessage))
    requires
        counter < u64::MAX,
    ensures
        r.0 == counter + 1,
        r.1@.content == producer_content((counter + 1) as nat),
        msg_valid(r.1@),
        r.1@.timestamp >= last_timestamp as int,
{
    let next = counter + 1;
    let mut content = "Hello World #".to_owned();
    append_decimal(&mut content, next);
    proof {
        lemma_producer_content_valid(next as nat);
    }
    let now = now_timestamp();
    let stamp = if now < last_timestamp {
        last_timestamp
    } else {
        now
    };
    (next, DDSMessage::with_timestamp(content, stamp))
}

/// Records a publish outcome: a successfully published message enters the
/// display queue; a failed one is dropped and the queue stands as it was.
pub fn record_publish_outcome(queue: &mut DisplayQueue, message: DDSMessage, published: bool)
    requires
        old(queue).wf(),
    ensures
        final(queue).wf(),
        published ==> final(queue)@ == display_after_push(old(queue)@, message@),
        !published ==> final(queue)@ == old(queue)@,
{
    if published {
        queue.push(message);
    }
}

/// Records a poll outcome: a received message enters the display queue; an
/// absent one changes nothing.
pub fn record_receive_outcome(queue: &mut DisplayQueue, received: Option<DDSMessage>)
    requires
        old(queue).wf(),
    ensures
        final(queue).wf(),
        received matches Some(m) ==> final(queue)@ == display_after_push(old(queue)@, m@),
        received is None ==> final(queue)@ == old(queue)@,
{
    match received {
        Some(message) => queue.push(message),
        None => (),
    }
}

} // verus!
