//! The lines that a run prints: one record to a line, its fields separated
//! by commas, its numbers in decimal.

use crate::prober::LatencySample;
use crate::query::QueryLatency;
use crate::throughput::RateSample;
use vstd::prelude::*;
use vstd::string::StringExecFns;

verus! {

/// The character of the decimal digit `d`.
pub open spec fn digit_char(d: nat) -> char {
    if d == 0 {
        '0'
    } else if d == 1 {
        '1'
    } else if d == 2 {
        '2'
    } else if d == 3 {
        '3'
    } else if d == 4 {
        '4'
    } else if d == 5 {
        '5'
    } else if d == 6 {
        '6'
    } else if d == 7 {
        '7'
    } else if d == 8 {
        '8'
    } else {
        '9'
    }
}

/// The decimal numeral of `n`: no sign, no leading zero but for zero itself.
pub open spec fn decimal_chars(n: nat) -> Seq<char>
    decreases n,
{
    if n < 10 {
        seq![digit_char(n)]
    } else {
        decimal_chars(n / 10).push(digit_char(n % 10))
    }
}

/// The fields of a latency record: the interval between probes as the
/// caller writes it, and half the round trip in microseconds.
pub open spec fn latency_chars(interval: Seq<char>, sample: LatencySample) -> Seq<char> {
    interval + seq![','] + decimal_chars(sample.half_rtt_us() as nat)
}

/// The fields of a throughput record: the payload size, the deliveries per
/// second, and the mean latency in microseconds where it was measured.
pub open spec fn throughput_chars(sample: RateSample) -> Seq<char> {
    decimal_chars(sample.payload_size as nat) + seq![','] + decimal_chars(
        sample.messages_per_second as nat,
    ) + (match sample.mean_latency_us {
        Some(mean) => seq![','] + decimal_chars(mean as nat),
        None => Seq::empty(),
    })
}

/// The text of one decimal digit.
fn digit_text(d: u8) -> (text: &'static str)
    requires
        d < 10,
    ensures
        text@ == seq![digit_char(d as nat)],
{
    proof {
        reveal_strlit("0");
        reveal_strlit("1");
        reveal_strlit("2");
        reveal_strlit("3");
        reveal_strlit("4");
        reveal_strlit("5");
        reveal_strlit("6");
        reveal_strlit("7");
        reveal_strlit("8");
        reveal_strlit("9");
    }
    let text = if d == 0 {
        "0"
    } else if d == 1 {
        "1"
    } else if d == 2 {
        "2"
    } else if d == 3 {
        "3"
    } else if d == 4 {
        "4"
    } else if d == 5 {
        "5"
    } else if d == 6 {
        "6"
    } else if d == 7 {
        "7"
    } else if d == 8 {
        "8"
    } else {
        "9"
    };
    assert(text@ =~= seq![digit_char(d as nat)]);
    text
}

/// Writes `n` in decimal.
pub fn decimal(n: u128) -> (text: String)
    ensures
        text@ == decimal_chars(n as nat),
    decreases n,
{
    if n < 10 {
        String::from_str(digit_text(n as u8))
    } else {
        let mut text = decimal(n / 10);
        text.append(digit_text((n % 10) as u8));
        assert(text@ =~= decimal_chars((n / 10) as nat).push(digit_char((n % 10) as nat)));
        text
    }
}

/// The line of one answered probe.
pub fn latency_line(interval: &str, sample: &LatencySample) -> (line: String)
    ensures
        line@ == latency_chars(interval@, *sample),
{
    proof {
        reveal_strlit(",");
    }
    let mut line = String::from_str(interval);
    line.append(",");
    let half = decimal(sample.half_rtt_us() as u128);
    line.append(half.as_str());
    assert(line@ =~= latency_chars(interval@, *sample));
    line
}

/// The line of one reporting window.
pub fn throughput_line(sample: &RateSample) -> (line: String)
    ensures
        line@ == throughput_chars(*sample),
{
    proof {
        reveal_strlit(",");
    }
    let mut line = decimal(sample.payload_size as u128);
    line.append(",");
    let rate = decimal(sample.messages_per_second);
    line.append(rate.as_str());
    match sample.mean_latency_us {
        Some(mean) => {
            line.append(",");
            let mean_text = decimal(mean as u128);
            line.append(mean_text.as_str());
        },
        None => {},
    }
    assert(line@ =~= throughput_chars(*sample));
    line
}

/// The fields that open a record of a named run: the layer that was
/// measured, the scenario, what was measured, and the name of the run.
pub open spec fn label_chars(
    layer: Seq<char>,
    scenario: Seq<char>,
    test: Seq<char>,
    name: Seq<char>,
) -> Seq<char> {
    layer + seq![','] + scenario + seq![','] + test + seq![','] + name
}

/// The record of one answered probe of a named run: the label, the payload
/// size, the interval between probes as the caller writes it, the sequence
/// index and the whole round trip in microseconds.
pub open spec fn named_latency_chars(
    label: Seq<char>,
    payload_size: usize,
    interval: Seq<char>,
    sample: LatencySample,
) -> Seq<char> {
    label + seq![','] + decimal_chars(payload_size as nat) + seq![','] + interval + seq![',']
        + decimal_chars(sample.seq_index as nat) + seq![','] + decimal_chars(sample.rtt_us as nat)
}

/// The record of one answered query of a named run: the label, the size of
/// the reply, the identity of the query and the time to the reply in
/// microseconds.
pub open spec fn query_latency_chars(label: Seq<char>, latency: QueryLatency) -> Seq<char> {
    label + seq![','] + decimal_chars(latency.payload_len as nat) + seq![','] + decimal_chars(
        latency.qid as nat,
    ) + seq![','] + decimal_chars(latency.elapsed_us as nat)
}

/// The record of one reporting window of a named run: the label, then the
/// fields of a throughput record.
pub open spec fn named_throughput_chars(label: Seq<char>, sample: RateSample) -> Seq<char> {
    label + seq![','] + throughput_chars(sample)
}

/// The label of the records of a named run.
pub fn label(layer: &str, scenario: &str, test: &str, name: &str) -> (text: String)
    ensures
        text@ == label_chars(layer@, scenario@, test@, name@),
{
    proof {
        reveal_strlit(",");
    }
    let mut text = String::from_str(layer);
    text.append(",");
    text.append(scenario);
    text.append(",");
    text.append(test);
    text.append(",");
    text.append(name);
    assert(text@ =~= label_chars(layer@, scenario@, test@, name@));
    text
}

/// The line of one answered probe of a named run.
pub fn named_latency_line(label: &str, payload_size: usize, interval: &str, sample: &LatencySample)
    -> (line: String)
    ensures
        line@ == named_latency_chars(label@, payload_size, interval@, *sample),
{
    proof {
        reveal_strlit(",");
    }
    let mut line = String::from_str(label);
    line.append(",");
    let size_text = decimal(payload_size as u128);
    line.append(size_text.as_str());
    line.append(",");
    line.append(interval);
    line.append(",");
    let seq_text = decimal(sample.seq_index as u128);
    line.append(seq_text.as_str());
    line.append(",");
    let rtt_text = decimal(sample.rtt_us as u128);
    line.append(rtt_text.as_str());
    assert(line@ =~= named_latency_chars(label@, payload_size, interval@, *sample));
    line
}

/// The line of one answered query of a named run.
pub fn query_latency_line(label: &str, latency: &QueryLatency) -> (line: String)
    ensures
        line@ == query_latency_chars(label@, *latency),
{
    proof {
        reveal_strlit(",");
    }
    let mut line = String::from_str(label);
    line.append(",");
    let len_text = decimal(latency.payload_len as u128);
    line.append(len_text.as_str());
    line.append(",");
    let qid_text = decimal(latency.qid as u128);
    line.append(qid_text.as_str());
    line.append(",");
    let elapsed_text = decimal(latency.elapsed_us as u128);
    line.append(elapsed_text.as_str());
    assert(line@ =~= query_latency_chars(label@, *latency));
    line
}

/// The line of one reporting window of a named run.
pub fn named_throughput_line(label: &str, sample: &RateSample) -> (line: String)
    ensures
        line@ == named_throughput_chars(label@, *sample),
{
    proof {
        reveal_strlit(",");
    }
    let mut line = String::from_str(label);
    line.append(",");
    let fields = throughput_line(sample);
    line.append(fields.as_str());
    assert(line@ =~= named_throughput_chars(label@, *sample));
    line
}

} // verus!
