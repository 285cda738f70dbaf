use crate::text::{chars_of, string_of};
use vstd::prelude::*;
use vstd::string::StringExecFns;

verus! {

/// What the tray icon shows.
#[derive(Clone, Copy, Debug, PartialEq, Eq, Structural)]
pub enum TrayState {
    Idle,
    Recording,
    Processing,
    Injected,
    Error,
}

impl TrayState {
    pub open spec fn spec_title(self) -> Seq<char> {
        match self {
            TrayState::Idle => "就绪"@,
            TrayState::Recording => "录音中"@,
            TrayState::Processing => "识别中"@,
            TrayState::Injected => "已发送"@,
            TrayState::Error => "失败"@,
        }
    }

    /// The word beside the tray icon.
    pub fn title(self) -> (r: &'static str)
        ensures
            r@ == self.spec_title(),
    {
        match self {
            TrayState::Idle => "就绪",
            TrayState::Recording => "录音中",
            TrayState::Processing => "识别中",
            TrayState::Injected => "已发送",
            TrayState::Error => "失败",
        }
    }

    pub open spec fn spec_symbol_name(self) -> Seq<char> {
        match self {
            TrayState::Idle => "circle"@,
            TrayState::Recording => "mic.fill"@,
            TrayState::Processing => "hourglass"@,
            TrayState::Injected => "checkmark.circle.fill"@,
            TrayState::Error => "exclamationmark.triangle.fill"@,
        }
    }

    /// The name of the system symbol that serves as the tray icon.
    pub fn symbol_name(self) -> (r: &'static str)
        ensures
            r@ == self.spec_symbol_name(),
    {
        match self {
            TrayState::Idle => "circle",
            TrayState::Recording => "mic.fill",
            TrayState::Processing => "hourglass",
            TrayState::Injected => "checkmark.circle.fill",
            TrayState::Error => "exclamationmark.triangle.fill",
        }
    }
}

/// One of the four lines of the monitor menu.
#[derive(Clone, Copy, Debug, PartialEq, Eq, Structural)]
pub enum MonitorField {
    State,
    Asr,
    Output,
    Hint,
}

impl MonitorField {
    pub open spec fn spec_label(self) -> Seq<char> {
        match self {
            MonitorField::State => "状态"@,
            MonitorField::Asr => "识别"@,
            MonitorField::Output => "发送"@,
            MonitorField::Hint => "提示"@,
        }
    }

    /// The word that the line begins with.
    pub fn label(self) -> (r: &'static str)
        ensures
            r@ == self.spec_label(),
    {
        match self {
            MonitorField::State => "状态",
            MonitorField::Asr => "识别",
            MonitorField::Output => "发送",
            MonitorField::Hint => "提示",
        }
    }
}

/// Longest value, in characters, that a line of the monitor menu shows in full.
pub const MONITOR_VALUE_MAX: usize = 64;

/// `s` cut down to at most `max` characters. A text that fits is left alone. Under eight
/// characters of room the text is cut off at the end; with more, its middle gives way to an
/// ellipsis, the head getting the smaller half of what room is left.
pub open spec fn spec_truncate_middle(s: Seq<char>, max: nat) -> Seq<char> {
    if s.len() <= max {
        s
    } else if max < 8 {
        s.take(max as int)
    } else {
        let head = (max - 1) / 2;
        let tail = max - 1 - head;
        s.take(head as int).push('…') + s.subrange(s.len() - tail, s.len() as int)
    }
}

/// A truncated text never has more than `max` characters, and has exactly `max` where
/// something was cut.
pub proof fn lemma_truncate_middle_len(s: Seq<char>, max: nat)
    ensures
        spec_truncate_middle(s, max).len() <= max,
        s.len() > max ==> spec_truncate_middle(s, max).len() == max,
{
}

/// Shortens `s` to at most `max_chars` characters, keeping its beginning and its end.
pub fn truncate_middle(s: &str, max_chars: usize) -> (r: String)
    ensures
        r@ == spec_truncate_middle(s@, max_chars as nat),
{
    let chars = chars_of(s);
    let n = chars.len();
    if n <= max_chars {
        return string_of(&chars);
    }
    let mut out: Vec<char> = Vec::new();
    if max_chars < 8 {
        let mut i: usize = 0;
        while i < max_chars
            invariant
                i <= max_chars < n,
                n == chars.len(),
                out@ == chars@.take(i as int),
            decreases max_chars - i,
        {
            out.push(chars[i]);
            assert(chars@.take(i as int).push(chars@[i as int]) =~= chars@.take(i + 1));
            i += 1;
        }
        return string_of(&out);
    }
    let head: usize = (max_chars - 1) / 2;
    let tail: usize = max_chars - 1 - head;
    let mut i: usize = 0;
    while i < head
        invariant
            i <= head < n,
            n == chars.len(),
            out@ == chars@.take(i as int),
        decreases head - i,
    {
        out.push(chars[i]);
        assert(chars@.take(i as int).push(chars@[i as int]) =~= chars@.take(i + 1));
        i += 1;
    }
    out.push('…');
    let ghost front = out@;
    let mut j: usize = n - tail;
    while j < n
        invariant
            n - tail <= j <= n,
            tail <= n,
            n == chars.len(),
            out@ == front + chars@.subrange(n - tail, j as int),
        decreases n - j,
    {
        out.push(chars[j]);
        assert(chars@.subrange(n - tail, j as int).push(chars@[j as int]) =~= chars@.subrange(
            n - tail,
            j + 1,
        ));
        assert(out@ =~= front + chars@.subrange(n - tail, j + 1));
        j += 1;
    }
    string_of(&out)
}

/// The title of a monitor line: its label, a colon, and the value shortened to fit.
pub open spec fn spec_monitor_title(field: MonitorField, value: Seq<char>) -> Seq<char> {
    field.spec_label() + ": "@ + spec_truncate_middle(value, MONITOR_VALUE_MAX as nat)
}

/// Composes the title of a monitor line.
pub fn monitor_title(field: MonitorField, value: &str) -> (r: String)
    ensures
        r@ == spec_monitor_title(field, value@),
{
    let shown = truncate_middle(value, MONITOR_VALUE_MAX);
    let mut s = String::from_str(field.label());
    s.append(": ");
    s.append(shown.as_str());
    s
}

} // verus!
