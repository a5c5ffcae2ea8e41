//! Numbers, texts and bytes.

use vstd::prelude::*;

use crate::async_stream::SHUT_WR;
use crate::backend::select_driver::{POLLOUT, POLLRDNORM};
use crate::errno::{
    EAGAIN, EALREADY, EBADF, EBADFD, EBUSY, ECANCELED, EEXIST, EINPROGRESS, EINTR, EINVAL, EIO,
    ENOENT, ENOSYS, ENOTCONN, ENOTDIR, ENOTRECOVERABLE, ENOTSUP, EPERM, EPIPE, EPROTO, ESHUTDOWN,
    ETIME, ETIMEDOUT,
};
use crate::model::{IndexView, StateView, TaskView};
use crate::outside::uuid_chars;
use crate::pointer_buffer::{be_bytes, be_value, message_bytes};
use crate::requests::{kernel_offset, IOType, AT_FDCWD};
use crate::sockaddr::{
    padded, port_bytes, SocketAddrUnix, AF_INET, AF_INET6, AF_UNIX, SA_FAMILY_LEN, SOCKADDR_IN6_LEN,
    SOCKADDR_IN_LEN, SUN_PATH_LEN,
};
use crate::text::{bool_text, decimal, line_of, signed_decimal};
use crate::tracing::{EventEnvelope, Events, TraceView};
use crate::version::{
    decimal_value, first_failure, is_version_char, lemma_first_failure, lemma_first_failure_at,
    number_of, version_of, ParseVersionError,
};

verus! {

/// The number that a text of digits stands for, read from the left.
pub open spec fn read_digits(s: Seq<char>) -> int
    decreases s.len(),
{
    if s.len() == 0 {
        0
    } else {
        read_digits(s.drop_last()) * 10 + (s.last() as int - 48)
    }
}

/// Whether a text has only digits, at least one, and no zero in front of others.
pub open spec fn plain_digits(s: Seq<char>) -> bool {
    &&& s.len() > 0
    &&& forall|i: int| 0 <= i < s.len() ==> '0' <= #[trigger] s[i] <= '9'
    &&& s.len() > 1 ==> s[0] != '0'
}

/// A number in decimal reads as that number, and has digits only, without zeros in front.
pub proof fn law_decimal_reads_as_its_number(n: nat)
    ensures
        read_digits(decimal(n)) == n,
        plain_digits(decimal(n)),
        n > 0 ==> decimal(n)[0] != '0',
    decreases n,
{
    if n < 10 {
        let s = decimal(n);
        assert(s.drop_last() =~= Seq::<char>::empty());
        assert(read_digits(s.drop_last()) == 0);
        assert(s.last() as int == 48 + n);
    } else {
        let front = decimal(n / 10);
        law_decimal_reads_as_its_number(n / 10);
        let s = decimal(n);
        assert(s.drop_last() =~= front);
        assert(s.last() as int == 48 + n % 10);
        assert(n == n / 10 * 10 + n % 10);
        assert forall|i: int| 0 <= i < s.len() implies '0' <= #[trigger] s[i] <= '9' by {
            if i < front.len() {
                assert(s[i] == front[i]);
            }
        }
        assert(s[0] == front[0]);
    }
}

/// A negative number has a hyphen in front of its magnitude; another one has no sign.
pub proof fn law_signed_decimal_reads_as_its_number(n: int)
    ensures
        n >= 0 ==> read_digits(signed_decimal(n)) == n && plain_digits(signed_decimal(n)),
        n < 0 ==> {
            let s = signed_decimal(n);
            &&& s[0] == '-'
            &&& read_digits(s.subrange(1, s.len() as int)) == -n
            &&& plain_digits(s.subrange(1, s.len() as int))
        },
{
    if n >= 0 {
        law_decimal_reads_as_its_number(n as nat);
    } else {
        law_decimal_reads_as_its_number((-n) as nat);
        let s = signed_decimal(n);
        assert(s.subrange(1, s.len() as int) =~= decimal((-n) as nat));
    }
}

/// Truth values are written out.
pub proof fn law_truth_values_are_words()
    ensures
        bool_text(true) == seq!['t', 'r', 'u', 'e'],
        bool_text(false) == seq!['f', 'a', 'l', 's', 'e'],
{
    reveal_strlit("true");
    reveal_strlit("false");
    assert(bool_text(true) =~= seq!['t', 'r', 'u', 'e']);
    assert(bool_text(false) =~= seq!['f', 'a', 'l', 's', 'e']);
}

/// The text of a UUID has 36 characters: hyphens behind the eighth, twelfth, sixteenth and
/// twentieth digit.
pub proof fn law_uuid_is_hyphenated(id: u128)
    ensures
        uuid_chars(id).len() == 36,
        uuid_chars(id)[8] == '-',
        uuid_chars(id)[13] == '-',
        uuid_chars(id)[18] == '-',
        uuid_chars(id)[23] == '-',
{
}

/// A line of fields: each is a label, a colon and a text, and stands behind a comma.
pub open spec fn with_field(line: Seq<char>, label: Seq<char>, text: Seq<char>) -> Seq<char> {
    line + seq![',', ' '] + label + seq![':', ' '] + text
}

proof fn lemma_field(line: Seq<char>, joined: Seq<char>, label: Seq<char>, text: Seq<char>)
    requires
        joined == seq![',', ' '] + label + seq![':', ' '],
    ensures
        line + joined + text == with_field(line, label, text),
{
    assert(line + joined + text =~= with_field(line, label, text));
}

/// How the line of an event begins: its name, and the thread and the task as fields.
pub open spec fn event_of_task(name: Seq<char>, envelope: EventEnvelope) -> Seq<char> {
    with_field(
        name + seq![':', ' '] + "thread_id"@ + seq![':', ' '] + decimal(
            envelope.thread_index as nat,
        ),
        "task_id"@,
        decimal(envelope.task_index as nat),
    )
}

proof fn lemma_event_of_task(name: Seq<char>, envelope: EventEnvelope)
    ensures
        crate::text::line_start(name, envelope.thread_index, envelope.task_index) == event_of_task(
            name,
            envelope,
        ),
{
    reveal_strlit(": thread_id: ");
    reveal_strlit("thread_id");
    reveal_strlit(", task_id: ");
    reveal_strlit("task_id");
    let d = decimal(envelope.thread_index as nat);
    assert(": thread_id: "@ =~= seq![':', ' '] + "thread_id"@ + seq![':', ' ']);
    assert(", task_id: "@ =~= seq![',', ' '] + "task_id"@ + seq![':', ' ']);
    assert(name + ": thread_id: "@ =~= name + seq![':', ' '] + "thread_id"@ + seq![':', ' ']);
    lemma_field(
        name + ": thread_id: "@ + d,
        ", task_id: "@,
        "task_id"@,
        decimal(envelope.task_index as nat),
    );
}

proof fn lemma_labels()
    ensures
        ", tag: "@ == seq![',', ' '] + "tag"@ + seq![':', ' '],
        ", activity_id: "@ == seq![',', ' '] + "activity_id"@ + seq![':', ' '],
        ", tenant_id: "@ == seq![',', ' '] + "tenant_id"@ + seq![':', ' '],
        ", io: "@ == seq![',', ' '] + "io"@ + seq![':', ' '],
        ", action: "@ == seq![',', ' '] + "action"@ + seq![':', ' '],
        ", complete: "@ == seq![',', ' '] + "complete"@ + seq![':', ' '],
        ", start_time: "@ == seq![',', ' '] + "start_time"@ + seq![':', ' '],
        ", cpu: "@ == seq![',', ' '] + "cpu"@ + seq![':', ' '],
        ", io_type: "@ == seq![',', ' '] + "io_type"@ + seq![':', ' '],
        ", fd: "@ == seq![',', ' '] + "fd"@ + seq![':', ' '],
        ", result: "@ == seq![',', ' '] + "result"@ + seq![':', ' '],
        ", error: "@ == seq![',', ' '] + "error"@ + seq![':', ' '],
        ", code: "@ == seq![',', ' '] + "code"@ + seq![':', ' '],
{
    reveal_strlit(", tag: ");
    reveal_strlit("tag");
    assert(", tag: "@ =~= seq![',', ' '] + "tag"@ + seq![':', ' ']);
    reveal_strlit(", activity_id: ");
    reveal_strlit("activity_id");
    assert(", activity_id: "@ =~= seq![',', ' '] + "activity_id"@ + seq![':', ' ']);
    reveal_strlit(", tenant_id: ");
    reveal_strlit("tenant_id");
    assert(", tenant_id: "@ =~= seq![',', ' '] + "tenant_id"@ + seq![':', ' ']);
    reveal_strlit(", io: ");
    reveal_strlit("io");
    assert(", io: "@ =~= seq![',', ' '] + "io"@ + seq![':', ' ']);
    reveal_strlit(", action: ");
    reveal_strlit("action");
    assert(", action: "@ =~= seq![',', ' '] + "action"@ + seq![':', ' ']);
    reveal_strlit(", complete: ");
    reveal_strlit("complete");
    assert(", complete: "@ =~= seq![',', ' '] + "complete"@ + seq![':', ' ']);
    reveal_strlit(", start_time: ");
    reveal_strlit("start_time");
    assert(", start_time: "@ =~= seq![',', ' '] + "start_time"@ + seq![':', ' ']);
    reveal_strlit(", cpu: ");
    reveal_strlit("cpu");
    assert(", cpu: "@ =~= seq![',', ' '] + "cpu"@ + seq![':', ' ']);
    reveal_strlit(", io_type: ");
    reveal_strlit("io_type");
    assert(", io_type: "@ =~= seq![',', ' '] + "io_type"@ + seq![':', ' ']);
    reveal_strlit(", fd: ");
    reveal_strlit("fd");
    assert(", fd: "@ =~= seq![',', ' '] + "fd"@ + seq![':', ' ']);
    reveal_strlit(", result: ");
    reveal_strlit("result");
    assert(", result: "@ =~= seq![',', ' '] + "result"@ + seq![':', ' ']);
    reveal_strlit(", error: ");
    reveal_strlit("error");
    assert(", error: "@ =~= seq![',', ' '] + "error"@ + seq![':', ' ']);
    reveal_strlit(", code: ");
    reveal_strlit("code");
    assert(", code: "@ =~= seq![',', ' '] + "code"@ + seq![':', ' ']);
}

/// The line of a wait or of I/O: the event's name and its fields, each once, with the number,
/// or the UUID, that the event holds.
pub proof fn law_lines_list_the_fields_of_an_operation(
    envelope: EventEnvelope,
    activity_id: u128,
    tag: u32,
    n: i32,
    io_type: u8,
    code: u64,
)
    ensures
        line_of(EventEnvelope { event: Events::AsyncWaitStart { activity_id, tag }, ..envelope })
            == with_field(
            with_field(
                event_of_task("async_wait_start"@, envelope),
                "tag"@,
                decimal(tag as nat),
            ),
            "activity_id"@,
            uuid_chars(activity_id),
        ),
        line_of(EventEnvelope { event: Events::AsyncWaitEnd { activity_id, tag }, ..envelope })
            == with_field(
            with_field(event_of_task("async_wait_end"@, envelope), "tag"@, decimal(tag as nat)),
            "activity_id"@,
            uuid_chars(activity_id),
        ),
        line_of(
            EventEnvelope {
                event: Events::IoStart { activity_id, fd: n, tag, io_type },
                ..envelope
            },
        ) == with_field(
            with_field(
                with_field(
                    with_field(
                        event_of_task("io_start"@, envelope),
                        "io_type"@,
                        decimal(io_type as nat),
                    ),
                    "fd"@,
                    signed_decimal(n as int),
                ),
                "tag"@,
                decimal(tag as nat),
            ),
            "activity_id"@,
            uuid_chars(activity_id),
        ),
        line_of(
            EventEnvelope { event: Events::IoEnd { activity_id, result: n, tag }, ..envelope },
        ) == with_field(
            with_field(
                with_field(
                    event_of_task("io_end"@, envelope),
                    "result"@,
                    signed_decimal(n as int),
                ),
                "tag"@,
                decimal(tag as nat),
            ),
            "activity_id"@,
            uuid_chars(activity_id),
        ),
        line_of(
            EventEnvelope { event: Events::IoError { activity_id, tag, error: n }, ..envelope },
        ) == with_field(
            with_field(
                with_field(event_of_task("io_error"@, envelope), "tag"@, decimal(tag as nat)),
                "error"@,
                signed_decimal(n as int),
            ),
            "activity_id"@,
            uuid_chars(activity_id),
        ),
        line_of(EventEnvelope { event: Events::TlsError { activity_id, code }, ..envelope })
            == with_field(
            with_field(event_of_task("tls_error"@, envelope), "code"@, decimal(code as nat)),
            "activity_id"@,
            uuid_chars(activity_id),
        ),
        line_of(EventEnvelope { event: Events::FutureCanceled { activity_id }, ..envelope })
            == with_field(
            event_of_task("future_canceled"@, envelope),
            "activity_id"@,
            uuid_chars(activity_id),
        ),
{
    lemma_labels();
    let t = decimal(tag as nat);
    let id = uuid_chars(activity_id);
    let x = signed_decimal(n as int);
    let kind = decimal(io_type as nat);
    let number = decimal(code as nat);
    let a = event_of_task("async_wait_start"@, envelope);
    lemma_event_of_task("async_wait_start"@, envelope);
    lemma_field(a, ", tag: "@, "tag"@, t);
    lemma_field(a + ", tag: "@ + t, ", activity_id: "@, "activity_id"@, id);
    let b = event_of_task("async_wait_end"@, envelope);
    lemma_event_of_task("async_wait_end"@, envelope);
    lemma_field(b, ", tag: "@, "tag"@, t);
    lemma_field(b + ", tag: "@ + t, ", activity_id: "@, "activity_id"@, id);
    let c = event_of_task("io_start"@, envelope);
    lemma_event_of_task("io_start"@, envelope);
    lemma_field(c, ", io_type: "@, "io_type"@, kind);
    let c1 = c + ", io_type: "@ + kind;
    lemma_field(c1, ", fd: "@, "fd"@, x);
    let c2 = c1 + ", fd: "@ + x;
    lemma_field(c2, ", tag: "@, "tag"@, t);
    lemma_field(c2 + ", tag: "@ + t, ", activity_id: "@, "activity_id"@, id);
    let d = event_of_task("io_end"@, envelope);
    lemma_event_of_task("io_end"@, envelope);
    lemma_field(d, ", result: "@, "result"@, x);
    let d1 = d + ", result: "@ + x;
    lemma_field(d1, ", tag: "@, "tag"@, t);
    lemma_field(d1 + ", tag: "@ + t, ", activity_id: "@, "activity_id"@, id);
    let e = event_of_task("io_error"@, envelope);
    lemma_event_of_task("io_error"@, envelope);
    lemma_field(e, ", tag: "@, "tag"@, t);
    let e1 = e + ", tag: "@ + t;
    lemma_field(e1, ", error: "@, "error"@, x);
    lemma_field(e1 + ", error: "@ + x, ", activity_id: "@, "activity_id"@, id);
    let f = event_of_task("tls_error"@, envelope);
    lemma_event_of_task("tls_error"@, envelope);
    lemma_field(f, ", code: "@, "code"@, number);
    lemma_field(f + ", code: "@ + number, ", activity_id: "@, "activity_id"@, id);
    lemma_event_of_task("future_canceled"@, envelope);
    lemma_field(
        event_of_task("future_canceled"@, envelope),
        ", activity_id: "@,
        "activity_id"@,
        id,
    );
}

/// The line of a task that became ready, or whose poll ended: the event's name and its fields.
pub proof fn law_lines_list_the_fields_of_a_task(
    envelope: EventEnvelope,
    activity_id: u128,
    tenant_id: u128,
    tag: u32,
    io: bool,
    start_time: u64,
    cpu: u16,
    action: u8,
    complete: bool,
)
    ensures
        line_of(
            EventEnvelope {
                event: Events::TaskScheduled { activity_id, tenant_id, tag, io },
                ..envelope
            },
        ) == with_field(
            with_field(
                with_field(
                    with_field(
                        event_of_task("task_scheduled"@, envelope),
                        "tag"@,
                        decimal(tag as nat),
                    ),
                    "activity_id"@,
                    uuid_chars(activity_id),
                ),
                "tenant_id"@,
                uuid_chars(tenant_id),
            ),
            "io"@,
            bool_text(io),
        ),
        line_of(
            EventEnvelope {
                event: Events::TaskRunEnd { activity_id, start_time, tag, cpu, action, complete },
                ..envelope
            },
        ) == with_field(
            with_field(
                with_field(
                    with_field(
                        with_field(
                            with_field(
                                event_of_task("task_run_end"@, envelope),
                                "action"@,
                                decimal(action as nat),
                            ),
                            "complete"@,
                            bool_text(complete),
                        ),
                        "tag"@,
                        decimal(tag as nat),
                    ),
                    "start_time"@,
                    decimal(start_time as nat),
                ),
                "activity_id"@,
                uuid_chars(activity_id),
            ),
            "cpu"@,
            decimal(cpu as nat),
        ),
{
    lemma_labels();
    let t = decimal(tag as nat);
    let id = uuid_chars(activity_id);
    let a = event_of_task("task_scheduled"@, envelope);
    lemma_event_of_task("task_scheduled"@, envelope);
    lemma_field(a, ", tag: "@, "tag"@, t);
    let a1 = a + ", tag: "@ + t;
    lemma_field(a1, ", activity_id: "@, "activity_id"@, id);
    let a2 = a1 + ", activity_id: "@ + id;
    lemma_field(a2, ", tenant_id: "@, "tenant_id"@, uuid_chars(tenant_id));
    let a3 = a2 + ", tenant_id: "@ + uuid_chars(tenant_id);
    lemma_field(a3, ", io: "@, "io"@, bool_text(io));
    let b = event_of_task("task_run_end"@, envelope);
    lemma_event_of_task("task_run_end"@, envelope);
    lemma_field(b, ", action: "@, "action"@, decimal(action as nat));
    let b1 = b + ", action: "@ + decimal(action as nat);
    lemma_field(b1, ", complete: "@, "complete"@, bool_text(complete));
    let b2 = b1 + ", complete: "@ + bool_text(complete);
    lemma_field(b2, ", tag: "@, "tag"@, t);
    let b3 = b2 + ", tag: "@ + t;
    lemma_field(b3, ", start_time: "@, "start_time"@, decimal(start_time as nat));
    let b4 = b3 + ", start_time: "@ + decimal(start_time as nat);
    lemma_field(b4, ", activity_id: "@, "activity_id"@, id);
    let b5 = b4 + ", activity_id: "@ + id;
    lemma_field(b5, ", cpu: "@, "cpu"@, decimal(cpu as nat));
}

/// The line of a call into the kernel: the event's name and its fields.
pub proof fn law_lines_list_the_fields_of_a_call(
    envelope: EventEnvelope,
    submissions: u64,
    in_flight_io: u64,
    start_time: u64,
    completions: u64,
    tag: u32,
    task_count: u32,
    want: bool,
    iopoll: bool,
)
    ensures
        line_of(
            EventEnvelope {
                event: Events::RingEnterEnd {
                    submissions,
                    in_flight_io,
                    start_time,
                    completions,
                    tag,
                    task_count,
                    want,
                    iopoll,
                },
                ..envelope
            },
        ) == with_field(
            with_field(
                with_field(
                    with_field(
                        with_field(
                            with_field(
                                with_field(
                                    with_field(
                                        event_of_task("ring_enter_end"@, envelope),
                                        "task_count"@,
                                        decimal(task_count as nat),
                                    ),
                                    "want"@,
                                    bool_text(want),
                                ),
                                "submissions"@,
                                decimal(submissions as nat),
                            ),
                            "in_flight_io"@,
                            decimal(in_flight_io as nat),
                        ),
                        "completions"@,
                        decimal(completions as nat),
                    ),
                    "tag"@,
                    decimal(tag as nat),
                ),
                "iopoll"@,
                bool_text(iopoll),
            ),
            "start_time"@,
            decimal(start_time as nat),
        ),
{
    lemma_labels();
    reveal_strlit(", task_count: ");
    reveal_strlit("task_count");
    assert(", task_count: "@ =~= seq![',', ' '] + "task_count"@ + seq![':', ' ']);
    reveal_strlit(", want: ");
    reveal_strlit("want");
    assert(", want: "@ =~= seq![',', ' '] + "want"@ + seq![':', ' ']);
    reveal_strlit(", submissions: ");
    reveal_strlit("submissions");
    assert(", submissions: "@ =~= seq![',', ' '] + "submissions"@ + seq![':', ' ']);
    reveal_strlit(", in_flight_io: ");
    reveal_strlit("in_flight_io");
    assert(", in_flight_io: "@ =~= seq![',', ' '] + "in_flight_io"@ + seq![':', ' ']);
    reveal_strlit(", completions: ");
    reveal_strlit("completions");
    assert(", completions: "@ =~= seq![',', ' '] + "completions"@ + seq![':', ' ']);
    reveal_strlit(", iopoll: ");
    reveal_strlit("iopoll");
    assert(", iopoll: "@ =~= seq![',', ' '] + "iopoll"@ + seq![':', ' ']);
    let a = event_of_task("ring_enter_end"@, envelope);
    lemma_event_of_task("ring_enter_end"@, envelope);
    lemma_field(a, ", task_count: "@, "task_count"@, decimal(task_count as nat));
    let a1 = a + ", task_count: "@ + decimal(task_count as nat);
    lemma_field(a1, ", want: "@, "want"@, bool_text(want));
    let a2 = a1 + ", want: "@ + bool_text(want);
    lemma_field(a2, ", submissions: "@, "submissions"@, decimal(submissions as nat));
    let a3 = a2 + ", submissions: "@ + decimal(submissions as nat);
    lemma_field(a3, ", in_flight_io: "@, "in_flight_io"@, decimal(in_flight_io as nat));
    let a4 = a3 + ", in_flight_io: "@ + decimal(in_flight_io as nat);
    lemma_field(a4, ", completions: "@, "completions"@, decimal(completions as nat));
    let a5 = a4 + ", completions: "@ + decimal(completions as nat);
    lemma_field(a5, ", tag: "@, "tag"@, decimal(tag as nat));
    let a6 = a5 + ", tag: "@ + decimal(tag as nat);
    lemma_field(a6, ", iopoll: "@, "iopoll"@, bool_text(iopoll));
    let a7 = a6 + ", iopoll: "@ + bool_text(iopoll);
    lemma_field(a7, ", start_time: "@, "start_time"@, decimal(start_time as nat));
}

proof fn lemma_value_is_read(s: Seq<char>)
    ensures
        decimal_value(s) == read_digits(s),
    decreases s.len(),
{
    if s.len() > 0 {
        lemma_value_is_read(s.drop_last());
    }
}

/// Whether a text has only digits, at least one.
pub open spec fn only_digits(s: Seq<char>) -> bool {
    s.len() > 0 && forall|i: int| 0 <= i < s.len() ==> '0' <= #[trigger] s[i] <= '9'
}

/// A text that begins with digits, a period and digits is the version with these two numbers,
/// whatever follows that is no digit: another period with anything behind it, or any other
/// character. Where 32 bits cannot hold one of them, it is none.
pub proof fn law_version_is_its_first_two_texts(a: Seq<char>, b: Seq<char>, rest: Seq<char>)
    requires
        only_digits(a),
        only_digits(b),
        rest.len() > 0 ==> !('0' <= rest[0] <= '9'),
    ensures
        ({
            let v = version_of(a + seq!['.'] + b + rest);
            if read_digits(a) <= u32::MAX && read_digits(b) <= u32::MAX {
                v == Ok::<(u32, u32), ParseVersionError>(
                    (read_digits(a) as u32, read_digits(b) as u32),
                )
            } else {
                v == Err::<(u32, u32), ParseVersionError>(ParseVersionError::PosOverflow)
            }
        }),
{
    let s = a + seq!['.'] + b + rest;
    lemma_value_is_read(a);
    lemma_value_is_read(b);
    let is_char = |c: char| is_version_char(c);
    let is_no_period = |c: char| c != '.';
    let n = first_failure(s, 0, is_char);
    let ab = (a.len() + 1 + b.len()) as int;
    lemma_first_failure(s, 0, is_char);
    assert forall|i: int| 0 <= i < a.len() implies #[trigger] s[i] == a[i] by {}
    assert(s[a.len() as int] == '.');
    assert forall|i: int| a.len() < i < ab implies #[trigger] s[i] == b[i - a.len() - 1] by {}
    assert(n >= ab) by {
        if n < ab {
            assert(!is_char(s[n]));
            if n < a.len() {
                assert('0' <= a[n] <= '9');
            } else if n > a.len() {
                assert('0' <= b[n - a.len() - 1] <= '9');
            }
        }
    }
    let p = s.subrange(0, n);
    assert forall|i: int| 0 <= i < a.len() implies is_no_period(#[trigger] p[i]) by {
        assert(p[i] == a[i]);
        assert('0' <= a[i] <= '9');
    }
    assert(p[a.len() as int] == '.');
    lemma_first_failure_at(p, 0, a.len() as int, is_no_period);
    assert(p.subrange(0, a.len() as int) =~= a);
    assert forall|i: int| a.len() < i < ab implies is_no_period(#[trigger] p[i]) by {
        assert(p[i] == b[i - a.len() - 1]);
        assert('0' <= b[i - a.len() - 1] <= '9');
    }
    if n > ab {
        assert(p[ab] == rest[0]);
        assert(s[ab] == rest[0]);
        assert(is_char(s[ab]));
    }
    lemma_first_failure_at(p, a.len() as int + 1, ab, is_no_period);
    assert(p.subrange(a.len() as int + 1, ab) =~= b);
}

/// A version that was written as two numbers with a period between them is read as these
/// numbers, whatever follows that is no digit.
pub proof fn law_version_is_its_first_two_numbers(major: u32, minor: u32, rest: Seq<char>)
    requires
        rest.len() > 0 ==> !('0' <= rest[0] <= '9'),
    ensures
        version_of(decimal(major as nat) + seq!['.'] + decimal(minor as nat) + rest) == Ok::<
            (u32, u32),
            ParseVersionError,
        >((major, minor)),
{
    law_decimal_reads_as_its_number(major as nat);
    law_decimal_reads_as_its_number(minor as nat);
    law_version_is_its_first_two_texts(decimal(major as nat), decimal(minor as nat), rest);
}

/// A text without a number in front, or without a period behind it, is no version, and
/// neither is one with no number behind the period.
pub proof fn law_version_needs_two_numbers(major: u32, rest: Seq<char>)
    requires
        rest.len() > 0 ==> !('0' <= rest[0] <= '9') && rest[0] != '.',
    ensures
        version_of(rest) == Err::<(u32, u32), ParseVersionError>(ParseVersionError::Empty),
        version_of(seq!['.'] + rest) == Err::<(u32, u32), ParseVersionError>(
            ParseVersionError::Empty,
        ),
        version_of(decimal(major as nat) + rest) == Err::<(u32, u32), ParseVersionError>(
            ParseVersionError::Empty,
        ),
        version_of(decimal(major as nat) + seq!['.'] + rest) == Err::<
            (u32, u32),
            ParseVersionError,
        >(ParseVersionError::Empty),
{
    let a = decimal(major as nat);
    law_decimal_reads_as_its_number(major as nat);
    lemma_value_is_read(a);
    let is_char = |c: char| is_version_char(c);
    let is_no_period = |c: char| c != '.';
    lemma_first_failure_at(rest, 0, 0, is_char);
    assert(rest.subrange(0, 0) =~= Seq::<char>::empty());
    lemma_first_failure_at(Seq::<char>::empty(), 0, 0, is_no_period);
    assert(Seq::<char>::empty().subrange(0, 0) =~= Seq::<char>::empty());
    let s1 = seq!['.'] + rest;
    assert(s1.len() > 1 ==> s1[1] == rest[0]);
    lemma_first_failure_at(s1, 0, 1, is_char);
    let p1 = s1.subrange(0, 1);
    lemma_first_failure_at(p1, 0, 0, is_no_period);
    assert(p1.subrange(0, 0) =~= Seq::<char>::empty());
    let s2 = a + rest;
    let n = a.len() as int;
    assert forall|i: int| 0 <= i < n implies is_char(#[trigger] s2[i]) by {
        assert(s2[i] == a[i]);
        assert('0' <= a[i] <= '9');
    }
    assert(s2.len() > n ==> s2[n] == rest[0]);
    lemma_first_failure_at(s2, 0, n, is_char);
    let p2 = s2.subrange(0, n);
    assert(p2 =~= a);
    assert forall|i: int| 0 <= i < n implies is_no_period(#[trigger] p2[i]) by {
        assert('0' <= a[i] <= '9');
    }
    lemma_first_failure_at(p2, 0, n, is_no_period);
    assert(p2.subrange(0, n) =~= a);
    let s3 = a + seq!['.'] + rest;
    assert forall|i: int| 0 <= i < n + 1 implies is_char(#[trigger] s3[i]) by {
        if i < n {
            assert(s3[i] == a[i]);
            assert('0' <= a[i] <= '9');
        }
    }
    assert(s3.len() > n + 1 ==> s3[n + 1] == rest[0]);
    lemma_first_failure_at(s3, 0, n + 1, is_char);
    let p3 = s3.subrange(0, n + 1);
    assert forall|i: int| 0 <= i < n implies is_no_period(#[trigger] p3[i]) by {
        assert(p3[i] == a[i]);
        assert('0' <= a[i] <= '9');
    }
    assert(p3[n] == '.');
    lemma_first_failure_at(p3, 0, n, is_no_period);
    assert(p3.subrange(0, n) =~= a);
    lemma_first_failure_at(p3, n + 1, n + 1, is_no_period);
    assert(p3.subrange(n + 1, n + 1) =~= Seq::<char>::empty());
}

/// Digits are the number that they read as, zeros in front or not; a number that 32 bits cannot
/// hold is none, and neither is a text without digits.
pub proof fn law_version_numbers_have_32_bits(s: Seq<char>)
    requires
        only_digits(s),
    ensures
        read_digits(s) <= u32::MAX ==> number_of(s) == Ok::<u32, ParseVersionError>(
            read_digits(s) as u32,
        ),
        read_digits(s) > u32::MAX ==> number_of(s) == Err::<u32, ParseVersionError>(
            ParseVersionError::PosOverflow,
        ),
        number_of(Seq::empty()) == Err::<u32, ParseVersionError>(ParseVersionError::Empty),
{
    lemma_value_is_read(s);
}

/// A port has its high byte first.
pub proof fn law_port_is_in_network_order(port: u16)
    ensures
        port_bytes(port).len() == 2,
        port_bytes(port)[0] * 256 + port_bytes(port)[1] == port,
{
}

/// The path of a Unix socket's address is the path itself; an abstract name stands behind a
/// zero. It is filled up with zeros.
pub proof fn law_unix_path_is_filled_up(addr: SocketAddrUnix, len: nat, i: int)
    requires
        addr.path_bytes().len() <= len,
        0 <= i < len,
    ensures
        ({
            let p = addr.path_bytes();
            &&& addr matches SocketAddrUnix::Path(path) ==> p == path@
            &&& addr matches SocketAddrUnix::Abstract(name) ==> p.len() == name@.len() + 1 && p[0]
                == 0 && p.subrange(1, p.len() as int) == name@
            &&& padded(p, len).len() == len
            &&& i < p.len() ==> padded(p, len)[i] == p[i]
            &&& i >= p.len() ==> padded(p, len)[i] == 0
        }),
{
    let p = addr.path_bytes();
    if let SocketAddrUnix::Abstract(name) = addr {
        assert(p.subrange(1, p.len() as int) =~= name@);
    }
}

/// An identifier has its most significant byte first: each byte counts 256 times the next.
pub proof fn law_identifier_has_its_high_byte_first(v: u64)
    ensures
        ({
            let b = be_bytes(v);
            &&& b.len() == 8
            &&& v == b[0] * 0x100_0000_0000_0000 + b[1] * 0x1_0000_0000_0000 + b[2]
                * 0x100_0000_0000 + b[3] * 0x1_0000_0000 + b[4] * 0x100_0000 + b[5] * 0x1_0000
                + b[6] * 0x100 + b[7]
        }),
{
    crate::pointer_buffer::law_id_round_trip(v);
    law_bytes_count_by_their_place(be_bytes(v));
}

/// Eight bytes stand for the number in which each counts 256 times the next.
pub proof fn law_bytes_count_by_their_place(b: Seq<u8>)
    requires
        b.len() == 8,
    ensures
        be_value(b) == b[0] * 0x100_0000_0000_0000 + b[1] * 0x1_0000_0000_0000 + b[2]
            * 0x100_0000_0000 + b[3] * 0x1_0000_0000 + b[4] * 0x100_0000 + b[5] * 0x1_0000 + b[6]
            * 0x100 + b[7],
{
    crate::pointer_buffer::lemma_be_value(b);
}

/// A message has the identifier in its first eight bytes, the most significant first, and the
/// address in the other eight, the least significant first.
pub proof fn law_message_holds_both_numbers(id: u64, pointer: u64)
    ensures
        ({
            let m = message_bytes(id, pointer);
            &&& m.len() == 16
            &&& id == m[0] * 0x100_0000_0000_0000 + m[1] * 0x1_0000_0000_0000 + m[2]
                * 0x100_0000_0000 + m[3] * 0x1_0000_0000 + m[4] * 0x100_0000 + m[5] * 0x1_0000
                + m[6] * 0x100 + m[7]
            &&& pointer == m[15] * 0x100_0000_0000_0000 + m[14] * 0x1_0000_0000_0000 + m[13]
                * 0x100_0000_0000 + m[12] * 0x1_0000_0000 + m[11] * 0x100_0000 + m[10] * 0x1_0000
                + m[9] * 0x100 + m[8]
        }),
{
    law_identifier_has_its_high_byte_first(id);
    law_identifier_has_its_high_byte_first(pointer);
}

/// The numbers of the operating system's errors.
pub proof fn law_errors_have_their_numbers()
    ensures
        EPERM == 1,
        ENOENT == 2,
        EINTR == 4,
        EIO == 5,
        EBADF == 9,
        EAGAIN == 11,
        EBUSY == 16,
        EEXIST == 17,
        ENOTDIR == 20,
        EINVAL == 22,
        EPIPE == 32,
        ENOSYS == 38,
        ETIME == 62,
        EPROTO == 71,
        EBADFD == 77,
        ENOTSUP == 95,
        ENOTCONN == 107,
        ESHUTDOWN == 108,
        ETIMEDOUT == 110,
        EALREADY == 114,
        EINPROGRESS == 115,
        ECANCELED == 125,
        ENOTRECOVERABLE == 131,
{
}

/// The numbers that the kernel gives to what this crate asks of it.
pub proof fn law_kernel_numbers()
    ensures
        SHUT_WR == 1,
        AF_UNIX == 1,
        AF_INET == 2,
        AF_INET6 == 10,
        SOCKADDR_IN_LEN == 2 + 2 + 4 + 8,
        SOCKADDR_IN6_LEN == 2 + 2 + 4 + 16 + 4,
        SUN_PATH_LEN == 108,
        SA_FAMILY_LEN == 2,
        AT_FDCWD == -100,
        POLLRDNORM == 0x100,
        POLLOUT == 0x10,
{
}

/// No two kinds of I/O have the same number in traces, and none has one above 23.
pub proof fn law_kinds_of_io_are_told_apart(a: IOType, b: IOType)
    ensures
        a != b ==> a.number() != b.number(),
        a.number() <= 23,
        IOType::Open.number() == 0,
        IOType::Link.number() == 1,
        IOType::Symlink.number() == 2,
        IOType::Mkdir.number() == 3,
        IOType::Unlink.number() == 4,
        IOType::Stat.number() == 5,
        IOType::Rename.number() == 6,
        IOType::FAdvise.number() == 7,
        IOType::MAdvise.number() == 8,
        IOType::FAllocate.number() == 9,
        IOType::Socket.number() == 10,
        IOType::Accept.number() == 11,
        IOType::Shutdown.number() == 12,
        IOType::Fsync.number() == 13,
        IOType::SyncFileRange.number() == 14,
        IOType::Connect.number() == 15,
        IOType::Write.number() == 16,
        IOType::Send.number() == 17,
        IOType::Recv.number() == 18,
        IOType::Read.number() == 19,
        IOType::Close.number() == 20,
        IOType::Nop.number() == 21,
        IOType::NvmeCmd.number() == 22,
        IOType::Timeout.number() == 23,
{
}

/// The kernel is told the offset, or, where there is none, the number that stands for the
/// file's own position: all ones.
pub proof fn law_offset_is_told(offset: u64)
    ensures
        kernel_offset(Some(offset)) == offset,
        kernel_offset(None) == u64::MAX,
{
}

/// An event is written behind those before it, with the thread and the task it belongs to,
/// where a sink is set up, and is lost otherwise.
pub proof fn law_events_are_written_in_order(trace: TraceView, task_index: u16, event: Events)
    ensures
        !trace.enabled ==> trace.write(task_index, event) == trace,
        trace.enabled ==> {
            let t = trace.write(task_index, event);
            &&& t.events.len() == trace.events.len() + 1
            &&& t.events.drop_last() == trace.events
            &&& t.events.last().thread_index == trace.thread_idx
            &&& t.events.last().task_index == task_index
            &&& t.events.last().event == event
            &&& t.enabled
            &&& t.thread_idx == trace.thread_idx
        },
{
    assert(trace.enabled ==> trace.write(task_index, event).events.drop_last() =~= trace.events);
}

/// A task index is given out while there is one: the one that was freed last, else one that
/// was never given out. It is in use then, and free again when it is given back.
pub proof fn law_indices_are_reused(t: IndexView)
    requires
        t.valid(),
        t.free.len() > 0 || t.next <= 65535,
    ensures
        ({
            let i = t.next_index();
            let taken = t.take();
            &&& 1 <= i
            &&& t.free.len() > 0 ==> i == t.free[t.free.len() - 1] && taken.free
                == t.free.drop_last() && taken.next == t.next
            &&& t.free.len() == 0 ==> i == t.next && taken.free.len() == 0 && taken.next == t.next
                + 1
            &&& !taken.free.contains(i)
            &&& taken.release(i).free == taken.free.push(i)
            &&& taken.release(i).next == taken.next
            &&& taken.release(i).next_index() == i
            &&& t.available()
        }),
{
    if t.free.len() > 0 {
        let i = t.free.last();
        let left = t.free.drop_last();
        if left.contains(i) {
            let j = choose|j: int| 0 <= j < left.len() && left[j] == i;
            assert(t.free[j] == t.free[t.free.len() - 1]);
        }
    }
}

/// The activity and the tenant of the thread are those of the running task, none where none
/// is running; and what is changed of the running task changes it alone.
pub proof fn law_thread_acts_for_its_task(s: StateView, task: TaskView)
    ensures
        ({
            let runs = s.current_task is Some && s.tasks.contains_key(s.current_task->0);
            &&& runs ==> {
                let key = s.current_task->0;
                &&& s.current_activity_id() == s.tasks[key].activity_id
                &&& s.current_tenant_id() == s.tasks[key].tenant_id
                &&& s.with_current(task).tasks == s.tasks.insert(key, task)
                &&& s.with_current(task) == (StateView {
                    tasks: s.with_current(task).tasks,
                    ..s
                })
            }
            &&& !runs ==> s.current_activity_id() == 0 && s.current_tenant_id() == 0
                && s.with_current(task) == s
        }),
{
}

} // verus!
