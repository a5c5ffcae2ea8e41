//! Text: numbers in decimal, and trace events as lines.

use vstd::prelude::*;

use crate::outside::{uuid_chars, uuid_text};
use crate::tracing::{EventEnvelope, Events};

verus! {

/// `String::push` of std appends a character.
pub assume_specification[ String::push ](s: &mut String, c: char)
    ensures
        final(s)@ == old(s)@.push(c),
;

/// The decimal digit for `n` in `0..10`.
pub open spec fn digit(n: int) -> char {
    ('0' as int + n) as char
}

/// A number in decimal, without leading zeros.
pub open spec fn decimal(n: nat) -> Seq<char>
    decreases n,
{
    if n < 10 {
        seq![digit(n as int)]
    } else {
        decimal(n / 10).push(digit((n % 10) as int))
    }
}

/// A number in decimal, with a sign where it is negative.
pub open spec fn signed_decimal(n: int) -> Seq<char> {
    if n < 0 {
        seq!['-'] + decimal((-n) as nat)
    } else {
        decimal(n as nat)
    }
}

/// A truth value.
pub open spec fn bool_text(b: bool) -> Seq<char> {
    if b {
        "true"@
    } else {
        "false"@
    }
}

/// The digit for `n`.
fn digit_char(n: u64) -> (c: char)
    requires
        n < 10,
    ensures
        c == digit(n as int),
{
    match n {
        0 => '0',
        1 => '1',
        2 => '2',
        3 => '3',
        4 => '4',
        5 => '5',
        6 => '6',
        7 => '7',
        8 => '8',
        _ => '9',
    }
}

/// Appends a number in decimal.
pub fn push_decimal(s: &mut String, n: u64)
    ensures
        final(s)@ == old(s)@ + decimal(n as nat),
    decreases n,
{
    if n >= 10 {
        push_decimal(s, n / 10);
        s.push(digit_char(n % 10));
        assert(s@ =~= old(s)@ + decimal(n as nat));
    } else {
        s.push(digit_char(n));
        assert(s@ =~= old(s)@ + decimal(n as nat));
    }
}

/// Appends a number in decimal, with a sign where it is negative.
pub fn push_signed(s: &mut String, n: i32)
    ensures
        final(s)@ == old(s)@ + signed_decimal(n as int),
{
    if n < 0 {
        s.push('-');
        let magnitude: u64 = (-(n as i64)) as u64;
        push_decimal(s, magnitude);
        assert(s@ =~= old(s)@ + signed_decimal(n as int));
    } else {
        push_decimal(s, n as u64);
    }
}

/// Appends a truth value.
pub fn push_bool(s: &mut String, b: bool)
    ensures
        final(s)@ == old(s)@ + bool_text(b),
{
    if b {
        s.append("true");
    } else {
        s.append("false");
    }
}

/// Appends the text of a UUID.
fn push_uuid(s: &mut String, id: u128)
    ensures
        final(s)@ == old(s)@ + uuid_chars(id),
{
    let text = uuid_text(id);
    s.append(text.as_str());
}

/// How the line of an event begins: its name, the thread and the task.
pub open spec fn line_start(name: Seq<char>, thread_index: u8, task_index: u16) -> Seq<char> {
    name + ": thread_id: "@ + decimal(thread_index as nat) + ", task_id: "@ + decimal(
        task_index as nat,
    )
}

/// The line of a trace event.
pub open spec fn line_of(envelope: EventEnvelope) -> Seq<char> {
    let thread = envelope.thread_index;
    let task = envelope.task_index;
    match envelope.event {
        Events::TaskScheduled { activity_id, tenant_id, tag, io } => line_start(
            "task_scheduled"@,
            thread,
            task,
        ) + ", tag: "@ + decimal(tag as nat) + ", activity_id: "@ + uuid_chars(activity_id)
            + ", tenant_id: "@ + uuid_chars(tenant_id) + ", io: "@ + bool_text(io),
        Events::TaskRunEnd { activity_id, start_time, tag, cpu, action, complete } => line_start(
            "task_run_end"@,
            thread,
            task,
        ) + ", action: "@ + decimal(action as nat) + ", complete: "@ + bool_text(complete)
            + ", tag: "@ + decimal(tag as nat) + ", start_time: "@ + decimal(start_time as nat)
            + ", activity_id: "@ + uuid_chars(activity_id) + ", cpu: "@ + decimal(cpu as nat),
        Events::RingEnterEnd {
            submissions,
            in_flight_io,
            start_time,
            completions,
            tag,
            task_count,
            want,
            iopoll,
        } => line_start("ring_enter_end"@, thread, task) + ", task_count: "@ + decimal(
            task_count as nat,
        ) + ", want: "@ + bool_text(want) + ", submissions: "@ + decimal(submissions as nat)
            + ", in_flight_io: "@ + decimal(in_flight_io as nat) + ", completions: "@ + decimal(
            completions as nat,
        ) + ", tag: "@ + decimal(tag as nat) + ", iopoll: "@ + bool_text(iopoll)
            + ", start_time: "@ + decimal(start_time as nat),
        Events::AsyncWaitStart { activity_id, tag } => line_start("async_wait_start"@, thread, task)
            + ", tag: "@ + decimal(tag as nat) + ", activity_id: "@ + uuid_chars(activity_id),
        Events::AsyncWaitEnd { activity_id, tag } => line_start("async_wait_end"@, thread, task)
            + ", tag: "@ + decimal(tag as nat) + ", activity_id: "@ + uuid_chars(activity_id),
        Events::IoStart { activity_id, fd, tag, io_type } => line_start("io_start"@, thread, task)
            + ", io_type: "@ + decimal(io_type as nat) + ", fd: "@ + signed_decimal(fd as int)
            + ", tag: "@ + decimal(tag as nat) + ", activity_id: "@ + uuid_chars(activity_id),
        Events::IoEnd { activity_id, result, tag } => line_start("io_end"@, thread, task)
            + ", result: "@ + signed_decimal(result as int) + ", tag: "@ + decimal(tag as nat)
            + ", activity_id: "@ + uuid_chars(activity_id),
        Events::IoError { activity_id, tag, error } => line_start("io_error"@, thread, task)
            + ", tag: "@ + decimal(tag as nat) + ", error: "@ + signed_decimal(error as int)
            + ", activity_id: "@ + uuid_chars(activity_id),
        Events::TlsError { activity_id, code } => line_start("tls_error"@, thread, task)
            + ", code: "@ + decimal(code as nat) + ", activity_id: "@ + uuid_chars(activity_id),
        Events::FutureCanceled { activity_id } => line_start("future_canceled"@, thread, task)
            + ", activity_id: "@ + uuid_chars(activity_id),
    }
}

/// Appends a name and a number.
fn push_field(s: &mut String, name: &str, n: u64)
    ensures
        final(s)@ == old(s)@ + name@ + decimal(n as nat),
{
    s.append(name);
    push_decimal(s, n);
}

/// Appends a name and a truth value.
fn push_flag(s: &mut String, name: &str, b: bool)
    ensures
        final(s)@ == old(s)@ + name@ + bool_text(b),
{
    s.append(name);
    push_bool(s, b);
}

/// Appends a name and a UUID.
fn push_id(s: &mut String, name: &str, id: u128)
    ensures
        final(s)@ == old(s)@ + name@ + uuid_chars(id),
{
    s.append(name);
    push_uuid(s, id);
}

/// Appends a name and a signed number.
fn push_number(s: &mut String, name: &str, n: i32)
    ensures
        final(s)@ == old(s)@ + name@ + signed_decimal(n as int),
{
    s.append(name);
    push_signed(s, n);
}

/// Begins the line of an event.
fn start_line(name: &str, thread_index: u8, task_index: u16) -> (s: String)
    ensures
        s@ == line_start(name@, thread_index, task_index),
{
    let mut s = String::new();
    s.append(name);
    assert(s@ =~= name@);
    push_field(&mut s, ": thread_id: ", thread_index as u64);
    push_field(&mut s, ", task_id: ", task_index as u64);
    s
}

/// The line of a trace event.
pub fn trace_line(envelope: &EventEnvelope) -> (line: String)
    ensures
        line@ == line_of(*envelope),
{
    let thread: u8 = envelope.thread_index;
    let task: u16 = envelope.task_index;
    match envelope.event {
        Events::TaskScheduled { activity_id, tenant_id, tag, io } => {
            let mut s = start_line("task_scheduled", thread, task);
            push_field(&mut s, ", tag: ", tag as u64);
            push_id(&mut s, ", activity_id: ", activity_id);
            push_id(&mut s, ", tenant_id: ", tenant_id);
            push_flag(&mut s, ", io: ", io);
            s
        },
        Events::TaskRunEnd { activity_id, start_time, tag, cpu, action, complete } => {
            let mut s = start_line("task_run_end", thread, task);
            push_field(&mut s, ", action: ", action as u64);
            push_flag(&mut s, ", complete: ", complete);
            push_field(&mut s, ", tag: ", tag as u64);
            push_field(&mut s, ", start_time: ", start_time);
            push_id(&mut s, ", activity_id: ", activity_id);
            push_field(&mut s, ", cpu: ", cpu as u64);
            s
        },
        Events::RingEnterEnd {
            submissions,
            in_flight_io,
            start_time,
            completions,
            tag,
            task_count,
            want,
            iopoll,
        } => {
            let mut s = start_line("ring_enter_end", thread, task);
            push_field(&mut s, ", task_count: ", task_count as u64);
            push_flag(&mut s, ", want: ", want);
            push_field(&mut s, ", submissions: ", submissions);
            push_field(&mut s, ", in_flight_io: ", in_flight_io);
            push_field(&mut s, ", completions: ", completions);
            push_field(&mut s, ", tag: ", tag as u64);
            push_flag(&mut s, ", iopoll: ", iopoll);
            push_field(&mut s, ", start_time: ", start_time);
            s
        },
        Events::AsyncWaitStart { activity_id, tag } => {
            let mut s = start_line("async_wait_start", thread, task);
            push_field(&mut s, ", tag: ", tag as u64);
            push_id(&mut s, ", activity_id: ", activity_id);
            s
        },
        Events::AsyncWaitEnd { activity_id, tag } => {
            let mut s = start_line("async_wait_end", thread, task);
            push_field(&mut s, ", tag: ", tag as u64);
            push_id(&mut s, ", activity_id: ", activity_id);
            s
        },
        Events::IoStart { activity_id, fd, tag, io_type } => {
            let mut s = start_line("io_start", thread, task);
            push_field(&mut s, ", io_type: ", io_type as u64);
            push_number(&mut s, ", fd: ", fd);
            push_field(&mut s, ", tag: ", tag as u64);
            push_id(&mut s, ", activity_id: ", activity_id);
            s
        },
        Events::IoEnd { activity_id, result, tag } => {
            let mut s = start_line("io_end", thread, task);
            push_number(&mut s, ", result: ", result);
            push_field(&mut s, ", tag: ", tag as u64);
            push_id(&mut s, ", activity_id: ", activity_id);
            s
        },
        Events::IoError { activity_id, tag, error } => {
            let mut s = start_line("io_error", thread, task);
            push_field(&mut s, ", tag: ", tag as u64);
            push_number(&mut s, ", error: ", error);
            push_id(&mut s, ", activity_id: ", activity_id);
            s
        },
        Events::TlsError { activity_id, code } => {
            let mut s = start_line("tls_error", thread, task);
            push_field(&mut s, ", code: ", code);
            push_id(&mut s, ", activity_id: ", activity_id);
            s
        },
        Events::FutureCanceled { activity_id } => {
            let mut s = start_line("future_canceled", thread, task);
            push_id(&mut s, ", activity_id: ", activity_id);
            s
        },
    }
}

} // verus!
