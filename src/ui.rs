//! Values the front-end works with: line endings appended to outgoing text,
//! file-transfer protocols, the tab kinds, and the choice of device.

use vstd::prelude::*;

verus! {

/// The ending appended to each line of outgoing text.
#[derive(Clone, Copy, Debug, PartialEq, Eq, Structural, Default)]
pub enum LineEnd {
    #[default]
    LF,
    CR,
    CrLf,
    /// Nothing appended.
    NoEnd,
}

pub open spec fn terminator_of(e: LineEnd) -> Seq<char> {
    match e {
        LineEnd::LF => "\n"@,
        LineEnd::CR => "\r"@,
        LineEnd::CrLf => "\r\n"@,
        LineEnd::NoEnd => ""@,
    }
}

pub open spec fn line_end_label(e: LineEnd) -> Seq<char> {
    match e {
        LineEnd::LF => "LF"@,
        LineEnd::CR => "CR"@,
        LineEnd::CrLf => "CR + LF"@,
        LineEnd::NoEnd => "None"@,
    }
}

impl LineEnd {
    /// The characters appended to a line.
    pub fn terminator(self) -> (r: &'static str)
        ensures
            r@ == terminator_of(self),
    {
        match self {
            LineEnd::LF => "\n",
            LineEnd::CR => "\r",
            LineEnd::CrLf => "\r\n",
            LineEnd::NoEnd => "",
        }
    }

    /// The name shown in the picker.
    pub fn label(self) -> (r: &'static str)
        ensures
            r@ == line_end_label(self),
    {
        match self {
            LineEnd::LF => "LF",
            LineEnd::CR => "CR",
            LineEnd::CrLf => "CR + LF",
            LineEnd::NoEnd => "None",
        }
    }
}

/// Frames outgoing text: the text followed by the chosen line ending.
pub fn with_line_end(text: &str, end: LineEnd) -> (r: String)
    ensures
        r@ == text@ + terminator_of(end),
{
    let s = String::from_str(text);
    s.concat(end.terminator())
}

/// How a file is sent over the link.
#[derive(Clone, Copy, Debug, PartialEq, Eq, Structural, Default)]
pub enum Protocol {
    #[default]
    Plain,
    XModem,
    YModem,
}

impl Protocol {
    pub fn name(self) -> (r: &'static str)
        ensures
            r@ == match self {
                Protocol::Plain => "Plain"@,
                Protocol::XModem => "XModem"@,
                Protocol::YModem => "YModem"@,
            },
    {
        match self {
            Protocol::Plain => "Plain",
            Protocol::XModem => "XModem",
            Protocol::YModem => "YModem",
        }
    }
}

/// The fixed set of tabs of the main window.
#[derive(Clone, Copy, Debug, PartialEq, Eq, Structural)]
pub enum Tabs {
    Terminal,
    Log,
    Settings,
}

impl Tabs {
    pub fn name(self) -> (r: &'static str)
        ensures
            r@ == match self {
                Tabs::Terminal => "Terminal"@,
                Tabs::Log => "Log"@,
                Tabs::Settings => "Settings"@,
            },
    {
        match self {
            Tabs::Terminal => "Terminal",
            Tabs::Log => "Log",
            Tabs::Settings => "Settings",
        }
    }
}

/// The tab that shows received and outgoing text.
pub struct TerminalTab;

/// The tab that shows the log.
pub struct LogTab;

/// The tab that edits the port settings.
pub struct SettingsTab;

impl TerminalTab {
    pub fn title(&self) -> (r: &'static str)
        ensures
            r@ == "Terminal"@,
    {
        "Terminal"
    }
}

impl LogTab {
    pub fn title(&self) -> (r: &'static str)
        ensures
            r@ == "Log"@,
    {
        "Log"
    }
}

impl SettingsTab {
    pub fn title(&self) -> (r: &'static str)
        ensures
            r@ == "Settings"@,
    {
        "Settings"
    }
}

/// The character of a decimal digit.
pub open spec fn digit_char(d: nat) -> char {
    seq!['0', '1', '2', '3', '4', '5', '6', '7', '8', '9'][d as int]
}

/// The decimal numeral of `n`, without leading zeros.
pub open spec fn decimal(n: nat) -> Seq<char>
    decreases n,
{
    if n < 10 {
        seq![digit_char(n)]
    } else {
        decimal(n / 10).push(digit_char(n % 10))
    }
}

fn digit_text(d: u32) -> (r: &'static str)
    requires
        d < 10,
    ensures
        r@ == seq![digit_char(d as nat)],
{
    proof {
        reveal_strlit("0");
        reveal_strlit("1");
        reveal_strlit("2");
        reveal_strlit("3");
        reveal_strlit("4");
        reveal_strlit("5");
        reveal_strlit("6");
        reveal_strlit("7");
        reveal_strlit("8");
        reveal_strlit("9");
    }
    let r = match d {
        0 => "0",
        1 => "1",
        2 => "2",
        3 => "3",
        4 => "4",
        5 => "5",
        6 => "6",
        7 => "7",
        8 => "8",
        _ => "9",
    };
    assert(r@ =~= seq![digit_char(d as nat)]);
    r
}

/// The decimal numeral of a count.
pub fn decimal_text(n: u32) -> (r: String)
    ensures
        r@ == decimal(n as nat),
    decreases n,
{
    if n < 10 {
        String::from_str(digit_text(n))
    } else {
        let head = decimal_text(n / 10);
        let r = head.concat(digit_text(n % 10));
        assert(r@ =~= decimal(n as nat));
        r
    }
}

/// The device to use: the one asked for, else the first one found, else
/// none (an empty name). An empty list of ports is an ordinary case.
pub fn select_device(requested: &str, ports: &Vec<String>) -> (r: String)
    ensures
        requested@.len() > 0 ==> r@ == requested@,
        requested@.len() == 0 && ports@.len() > 0 ==> r@ == ports@[0]@,
        requested@.len() == 0 && ports@.len() == 0 ==> r@ == Seq::<char>::empty(),
{
    if !requested.is_empty() {
        String::from_str(requested)
    } else if ports.len() > 0 {
        ports[0].clone()
    } else {
        String::new()
    }
}

} // verus!
