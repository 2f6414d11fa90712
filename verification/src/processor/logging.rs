//! Structured JSON log lines for event processing.
//!
//! Every line follows the schema
//! `{"timestamp":"...","level":"...","service":"keyrx_daemon","event_type":"...","context":{...}}`.
//! The functions here build the lines; emitting them is left to the caller.

use vstd::prelude::*;
use crate::keys::{KeyCode, key_name};
use crate::text::{dec, zero_pad, push_char, push_dec_padded, push_radix, owned, radix_digits,
    digit_char};
use crate::platform::common::{system_now, duration_since_epoch, duration_secs, duration_subsec_nanos,
    since_epoch, secs_of, subsec_nanos_of};

verus! {

/// Seconds in the simplified year used by the timestamp calendar.
pub const SECS_PER_YEAR: u64 = 31_557_600;

/// Seconds in the simplified month used by the timestamp calendar.
pub const SECS_PER_MONTH: u64 = 2_629_800;

/// The timestamp written when the clock reads earlier than the Unix epoch.
pub open spec fn epoch_timestamp() -> Seq<char> {
    "1970-01-01T00:00:00.000Z"@
}

/// The ISO 8601 rendering of `secs` seconds and `nanos` nanoseconds after
/// the Unix epoch, on a simplified calendar of equal 365.25-day years and
/// equal 30.4375-day months: `YYYY-MM-DDTHH:MM:SS.mmmZ`.
pub open spec fn timestamp_text(secs: nat, nanos: nat) -> Seq<char> {
    zero_pad(dec(1970 + secs / 31_557_600), 4) + seq!['-']
        + zero_pad(dec((secs % 31_557_600) / 2_629_800 + 1), 2) + seq!['-']
        + zero_pad(dec((secs % 2_629_800) / 86400 + 1), 2) + seq!['T']
        + zero_pad(dec((secs % 86400) / 3600), 2) + seq![':']
        + zero_pad(dec((secs % 3600) / 60), 2) + seq![':']
        + zero_pad(dec(secs % 60), 2) + seq!['.']
        + zero_pad(dec(nanos / 1_000_000), 3) + seq!['Z']
}

/// Whether `ts` is the timestamp of some clock reading.
pub open spec fn is_log_timestamp(ts: Seq<char>) -> bool {
    exists|t: std::time::SystemTime| ts == time_text(t)
}

/// Renders a time since the epoch as `YYYY-MM-DDTHH:MM:SS.mmmZ`.
pub fn format_timestamp(secs: u64, nanos: u32) -> (r: String)
    ensures
        r@ == timestamp_text(secs as nat, nanos as nat),
{
    let mut s = String::new();
    push_dec_padded(&mut s, 1970 + secs / SECS_PER_YEAR, 4);
    push_char(&mut s, '-');
    push_dec_padded(&mut s, (secs % SECS_PER_YEAR) / SECS_PER_MONTH + 1, 2);
    push_char(&mut s, '-');
    push_dec_padded(&mut s, (secs % SECS_PER_MONTH) / 86400 + 1, 2);
    push_char(&mut s, 'T');
    push_dec_padded(&mut s, (secs % 86400) / 3600, 2);
    push_char(&mut s, ':');
    push_dec_padded(&mut s, (secs % 3600) / 60, 2);
    push_char(&mut s, ':');
    push_dec_padded(&mut s, secs % 60, 2);
    push_char(&mut s, '.');
    push_dec_padded(&mut s, (nanos / 1_000_000) as u64, 3);
    push_char(&mut s, 'Z');
    assert(s@ =~= timestamp_text(secs as nat, nanos as nat));
    s
}

/// The timestamp written for a clock reading: its time since the epoch in
/// ISO 8601, or the epoch itself for a reading earlier than the epoch.
pub open spec fn time_text(t: std::time::SystemTime) -> Seq<char> {
    match since_epoch(t) {
        Some(d) => timestamp_text(secs_of(d) as nat, subsec_nanos_of(d) as nat),
        None => epoch_timestamp(),
    }
}

/// Renders a clock reading as an ISO 8601 timestamp.
pub fn timestamp_of(t: &std::time::SystemTime) -> (r: String)
    ensures
        r@ == time_text(*t),
{
    match duration_since_epoch(t) {
        Some(d) => {
            let secs = duration_secs(&d);
            let nanos = duration_subsec_nanos(&d);
            format_timestamp(secs, nanos)
        },
        None => owned("1970-01-01T00:00:00.000Z"),
    }
}

/// The current wall-clock time as an ISO 8601 timestamp; a clock set
/// before the epoch gives the epoch.
pub fn current_timestamp() -> (r: String)
    ensures
        is_log_timestamp(r@),
{
    let now = system_now();
    timestamp_of(&now)
}

/// The `config_loaded` line for a timestamp and a mapping count.
pub open spec fn config_loaded_line(ts: Seq<char>, mapping_count: nat) -> Seq<char> {
    "{\"timestamp\":\""@ + ts
        + "\",\"level\":\"INFO\",\"service\":\"keyrx_daemon\",\"event_type\":\"config_loaded\",\"context\":{\"mapping_count\":"@
        + dec(mapping_count) + "}}"@
}

/// The `state_transition` line for a timestamp and a transition context
/// (itself a JSON object).
pub open spec fn state_transition_line(ts: Seq<char>, context: Seq<char>) -> Seq<char> {
    "{\"timestamp\":\""@ + ts
        + "\",\"level\":\"DEBUG\",\"service\":\"keyrx_daemon\",\"event_type\":\"state_transition\",\"context\":"@
        + context + "}"@
}

/// The `platform_error` line for a timestamp, an error text and a device.
pub open spec fn platform_error_line(ts: Seq<char>, error: Seq<char>, device: Seq<char>) -> Seq<
    char,
> {
    "{\"timestamp\":\""@ + ts
        + "\",\"level\":\"ERROR\",\"service\":\"keyrx_daemon\",\"event_type\":\"platform_error\",\"context\":{\"error\":\""@
        + error + "\",\"device\":\""@ + device + "\"}}"@
}

/// Builds the `config_loaded` line logged when the configuration is loaded
/// and the processor initialised, stamped with the current time.
pub fn log_config_loaded(mapping_count: usize) -> (r: String)
    ensures
        exists|ts: Seq<char>| is_log_timestamp(ts) && r@ == config_loaded_line(ts, mapping_count as nat),
{
    let ts = current_timestamp();
    let mut r = owned("{\"timestamp\":\"");
    r.append(ts.as_str());
    r.append("\",\"level\":\"INFO\",\"service\":\"keyrx_daemon\",\"event_type\":\"config_loaded\",\"context\":{\"mapping_count\":");
    push_radix(&mut r, mapping_count as u64, 10);
    r.append("}}");
    assert(r@ =~= config_loaded_line(ts@, mapping_count as nat));
    r
}

/// Builds the `state_transition` line logged when a modifier or lock
/// changes state, stamped with the current time.
pub fn log_state_transition(transition_context: &str) -> (r: String)
    ensures
        exists|ts: Seq<char>| is_log_timestamp(ts) && r@ == state_transition_line(ts, transition_context@),
{
    let ts = current_timestamp();
    let mut r = owned("{\"timestamp\":\"");
    r.append(ts.as_str());
    r.append("\",\"level\":\"DEBUG\",\"service\":\"keyrx_daemon\",\"event_type\":\"state_transition\",\"context\":");
    r.append(transition_context);
    r.append("}");
    assert(r@ =~= state_transition_line(ts@, transition_context@));
    r
}

/// Builds the `platform_error` line logged when an input or output device
/// fails, stamped with the current time.
pub fn log_platform_error(error: &str, device: &str) -> (r: String)
    ensures
        exists|ts: Seq<char>| is_log_timestamp(ts) && r@ == platform_error_line(ts, error@, device@),
{
    let ts = current_timestamp();
    let mut r = owned("{\"timestamp\":\"");
    r.append(ts.as_str());
    r.append("\",\"level\":\"ERROR\",\"service\":\"keyrx_daemon\",\"event_type\":\"platform_error\",\"context\":{\"error\":\"");
    r.append(error);
    r.append("\",\"device\":\"");
    r.append(device);
    r.append("\"}}");
    assert(r@ =~= platform_error_line(ts@, error@, device@));
    r
}

/// A key name in double quotes.
pub open spec fn quoted_key(k: KeyCode) -> Seq<char> {
    seq!['"'] + key_name(k) + seq!['"']
}

/// Quoted key names separated by commas.
pub open spec fn key_list(keys: Seq<KeyCode>) -> Seq<char>
    decreases keys.len(),
{
    if keys.len() == 0 {
        Seq::empty()
    } else if keys.len() == 1 {
        quoted_key(keys[0])
    } else {
        key_list(keys.drop_last()) + seq![','] + quoted_key(keys.last())
    }
}

/// The `key_processed` line for a timestamp, an input key, its output keys
/// and the processing latency in microseconds.
pub open spec fn key_processed_line(
    ts: Seq<char>,
    input_key: KeyCode,
    output_keys: Seq<KeyCode>,
    latency_us: u64,
) -> Seq<char> {
    "{\"timestamp\":\""@ + ts
        + "\",\"level\":\"DEBUG\",\"service\":\"keyrx_daemon\",\"event_type\":\"key_processed\",\"context\":{\"input_key\":"@
        + quoted_key(input_key) + ",\"output_keys\":["@ + key_list(output_keys)
        + "],\"latency_us\":"@ + dec(latency_us as nat) + "}}"@
}

/// Builds the `key_processed` line logged for each processed key event,
/// stamped with the current time; keys are written by name.
pub fn log_key_processed(input_key: KeyCode, output_keys: &[KeyCode], latency_us: u64) -> (r: String)
    ensures
        exists|ts: Seq<char>| is_log_timestamp(ts) && r@ == key_processed_line(
            ts,
            input_key,
            output_keys@,
            latency_us,
        ),
{
    let ts = current_timestamp();
    let mut r = owned("{\"timestamp\":\"");
    r.append(ts.as_str());
    r.append(
        "\",\"level\":\"DEBUG\",\"service\":\"keyrx_daemon\",\"event_type\":\"key_processed\",\"context\":{\"input_key\":",
    );
    let ghost head = r@;
    push_char(&mut r, '"');
    r.append(input_key.name());
    push_char(&mut r, '"');
    assert(r@ =~= head + quoted_key(input_key));
    r.append(",\"output_keys\":[");
    let ghost before_list = r@;
    let mut i: usize = 0;
    while i < output_keys.len()
        invariant
            i <= output_keys@.len(),
            r@ == before_list + key_list(output_keys@.subrange(0, i as int)),
        decreases output_keys@.len() - i,
    {
        let ghost prev = r@;
        let ghost next = output_keys@.subrange(0, i + 1);
        assert(next.drop_last() =~= output_keys@.subrange(0, i as int));
        assert(next.last() == output_keys@[i as int]);
        if i > 0 {
            push_char(&mut r, ',');
        }
        push_char(&mut r, '"');
        r.append(output_keys[i].name());
        push_char(&mut r, '"');
        proof {
            if i == 0 {
                assert(next =~= seq![output_keys@[0]]);
                assert(output_keys@.subrange(0, 0) =~= Seq::<KeyCode>::empty());
                assert(r@ =~= before_list + key_list(next));
            } else {
                assert(r@ =~= before_list + key_list(next));
            }
        }
        i = i + 1;
    }
    assert(output_keys@.subrange(0, output_keys@.len() as int) =~= output_keys@);
    r.append("],\"latency_us\":");
    push_radix(&mut r, latency_us, 10);
    r.append("}}");
    assert(r@ =~= key_processed_line(ts@, input_key, output_keys@, latency_us));
    r
}

/// The transition context of a modifier activation.
pub open spec fn modifier_activated_text(modifier_id: u8) -> Seq<char> {
    "{\"transition_type\":\"modifier_activated\",\"modifier_id\":"@ + dec(modifier_id as nat) + "}"@
}

/// The transition context of a modifier deactivation.
pub open spec fn modifier_deactivated_text(modifier_id: u8) -> Seq<char> {
    "{\"transition_type\":\"modifier_deactivated\",\"modifier_id\":"@ + dec(modifier_id as nat)
        + "}"@
}

/// The transition context of a lock toggle.
pub open spec fn lock_toggled_text(lock_id: u8) -> Seq<char> {
    "{\"transition_type\":\"lock_toggled\",\"lock_id\":"@ + dec(lock_id as nat) + "}"@
}

/// Formats the state transition context for a modifier activation.
pub fn format_modifier_activated(modifier_id: u8) -> (r: String)
    ensures
        r@ == modifier_activated_text(modifier_id),
{
    let mut r = owned("{\"transition_type\":\"modifier_activated\",\"modifier_id\":");
    push_radix(&mut r, modifier_id as u64, 10);
    r.append("}");
    r
}

/// Formats the state transition context for a modifier deactivation.
pub fn format_modifier_deactivated(modifier_id: u8) -> (r: String)
    ensures
        r@ == modifier_deactivated_text(modifier_id),
{
    let mut r = owned("{\"transition_type\":\"modifier_deactivated\",\"modifier_id\":");
    push_radix(&mut r, modifier_id as u64, 10);
    r.append("}");
    r
}

/// Formats the state transition context for a lock toggle.
pub fn format_lock_toggled(lock_id: u8) -> (r: String)
    ensures
        r@ == lock_toggled_text(lock_id),
{
    let mut r = owned("{\"transition_type\":\"lock_toggled\",\"lock_id\":");
    push_radix(&mut r, lock_id as u64, 10);
    r.append("}");
    r
}

proof fn lemma_dec_len(n: nat, bound: nat, width: nat)
    requires
        1 <= width,
        n < bound,
        width == 1 ==> bound <= 10,
        width == 2 ==> bound <= 100,
        width == 3 ==> bound <= 1000,
        width == 4 ==> bound <= 10000,
        width <= 4,
    ensures
        dec(n).len() <= width,
    decreases width,
{
    if n >= 10 {
        assert(n / 10 < n);
        assert(dec(n) == radix_digits(n / 10, 10).push(digit_char(n % 10)));
        let sub_bound: nat = if width == 4 { 1000 } else if width == 3 { 100 } else { 10 };
        if width == 4 {
            assert(n / 10 < 1000) by (nonlinear_arith)
                requires
                    n < 10000,
            ;
        } else if width == 3 {
            assert(n / 10 < 100) by (nonlinear_arith)
                requires
                    n < 1000,
            ;
        } else {
            assert(n / 10 < 10) by (nonlinear_arith)
                requires
                    n < 100,
            ;
        }
        lemma_dec_len(n / 10, sub_bound, (width - 1) as nat);
    }
}

proof fn lemma_pad_len(s: Seq<char>, width: nat)
    requires
        s.len() <= width,
    ensures
        zero_pad(s, width).len() == width,
{
}

/// Every timestamp of a clock reading before the year 10000 has the
/// 24-character shape `YYYY-MM-DDTHH:MM:SS.mmmZ`.
pub proof fn law_timestamp_shape(secs: nat, nanos: nat)
    requires
        secs < 253_407_528_000,
        nanos < 1_000_000_000,
    ensures
        timestamp_text(secs, nanos).len() == 24,
        timestamp_text(secs, nanos)[4] == '-',
        timestamp_text(secs, nanos)[7] == '-',
        timestamp_text(secs, nanos)[10] == 'T',
        timestamp_text(secs, nanos)[13] == ':',
        timestamp_text(secs, nanos)[16] == ':',
        timestamp_text(secs, nanos)[19] == '.',
        timestamp_text(secs, nanos)[23] == 'Z',
{
    let year = 1970 + secs / 31_557_600;
    let month = (secs % 31_557_600) / 2_629_800 + 1;
    let day = (secs % 2_629_800) / 86400 + 1;
    let hour = (secs % 86400) / 3600;
    let minute = (secs % 3600) / 60;
    let second = secs % 60;
    let milli = nanos / 1_000_000;
    assert(secs / 31_557_600 < 8030) by (nonlinear_arith)
        requires
            secs < 253_407_528_000,
    ;
    assert((secs % 31_557_600) / 2_629_800 < 12) by (nonlinear_arith);
    assert((secs % 2_629_800) / 86400 < 31) by (nonlinear_arith);
    assert((secs % 86400) / 3600 < 24) by (nonlinear_arith);
    assert((secs % 3600) / 60 < 60) by (nonlinear_arith);
    assert(nanos / 1_000_000 < 1000) by (nonlinear_arith)
        requires
            nanos < 1_000_000_000,
    ;
    lemma_dec_len(year, 10000, 4);
    lemma_dec_len(month, 100, 2);
    lemma_dec_len(day, 100, 2);
    lemma_dec_len(hour, 100, 2);
    lemma_dec_len(minute, 100, 2);
    lemma_dec_len(second, 100, 2);
    lemma_dec_len(milli, 1000, 3);
    lemma_pad_len(dec(year), 4);
    lemma_pad_len(dec(month), 2);
    lemma_pad_len(dec(day), 2);
    lemma_pad_len(dec(hour), 2);
    lemma_pad_len(dec(minute), 2);
    lemma_pad_len(dec(second), 2);
    lemma_pad_len(dec(milli), 3);
}

} // verus!
