use vstd::prelude::*;
use vstd::string::*;

verus! {

/// One configured button: the label drawn on it and the shell command it runs.
#[derive(Clone)]
pub struct ArgButton {
    pub text: String,
    pub action: String,
}

/// The configuration read from the command line.
#[derive(Clone)]
pub struct Args {
    pub message: String,
    pub buttons: Vec<ArgButton>,
    pub message_type: String,
    pub detailed_message: bool,
}

/// A button as a pair of label and command.
pub type ButtonView = (Seq<char>, Seq<char>);

/// The mathematical value of an `Args`.
pub struct ArgsView {
    pub message: Seq<char>,
    pub buttons: Seq<ButtonView>,
    pub message_type: Seq<char>,
    pub detailed_message: bool,
}

impl View for ArgButton {
    type V = ButtonView;

    open spec fn view(&self) -> ButtonView {
        (self.text@, self.action@)
    }
}

impl View for Args {
    type V = ArgsView;

    open spec fn view(&self) -> ArgsView {
        ArgsView {
            message: self.message@,
            buttons: self.buttons@.map_values(|b: ArgButton| b@),
            message_type: self.message_type@,
            detailed_message: self.detailed_message,
        }
    }
}

/// What has been read so far while scanning the arguments.
pub struct ScanState {
    pub message: Option<Seq<char>>,
    pub message_type: Option<Seq<char>>,
    pub buttons: Seq<ButtonView>,
    pub detailed_message: bool,
}

pub open spec fn err_missing_message() -> Seq<char> {
    "missing required arg message (-m/--message)"@
}

pub open spec fn err_missing_type() -> Seq<char> {
    "missing required arg type (-t/--type)"@
}

pub open spec fn err_button_text() -> Seq<char> {
    "button missing text"@
}

pub open spec fn err_button_action() -> Seq<char> {
    "button missing action"@
}

pub open spec fn err_invalid(arg: Seq<char>) -> Seq<char> {
    "invalid arg '"@ + arg + "'"@
}

pub open spec fn is_message_flag(t: Seq<char>) -> bool {
    t == "-m"@ || t == "--message"@
}

pub open spec fn is_type_flag(t: Seq<char>) -> bool {
    t == "-t"@ || t == "--type"@
}

pub open spec fn is_detailed_flag(t: Seq<char>) -> bool {
    t == "-l"@ || t == "--detailed-message"@
}

pub open spec fn is_button_flag(t: Seq<char>) -> bool {
    t == "-b"@ || t == "--button"@ || t == "-B"@ || t == "--button-no-terminal"@
}

/// Reads the arguments from position `i` on, starting in state `st`: either the
/// final state or the first error met.
pub open spec fn scan(toks: Seq<Seq<char>>, i: int, st: ScanState) -> Result<ScanState, Seq<char>>
    decreases toks.len() - i,
{
    if i < 0 || i >= toks.len() {
        Ok(st)
    } else {
        let t = toks[i];
        if is_message_flag(t) {
            if i + 1 < toks.len() {
                scan(toks, i + 2, ScanState { message: Some(toks[i + 1]), ..st })
            } else {
                Err(err_missing_message())
            }
        } else if is_type_flag(t) {
            if i + 1 < toks.len() {
                scan(toks, i + 2, ScanState { message_type: Some(toks[i + 1]), ..st })
            } else {
                Err(err_missing_type())
            }
        } else if is_detailed_flag(t) {
            scan(toks, i + 1, ScanState { detailed_message: true, ..st })
        } else if is_button_flag(t) {
            if i + 1 >= toks.len() {
                Err(err_button_text())
            } else if i + 2 >= toks.len() {
                Err(err_button_action())
            } else {
                scan(toks, i + 3, ScanState { buttons: st.buttons.push((toks[i + 1], toks[i + 2])), ..st })
            }
        } else {
            Err(err_invalid(t))
        }
    }
}

pub open spec fn initial_scan_state() -> ScanState {
    ScanState { message: None, message_type: None, buttons: Seq::empty(), detailed_message: false }
}

/// What `parse` yields for the whole argument list, the program name first.
pub open spec fn parse_spec(toks: Seq<Seq<char>>) -> Result<ArgsView, Seq<char>> {
    match scan(toks, 1, initial_scan_state()) {
        Err(e) => Err(e),
        Ok(st) => match st.message {
            None => Err(err_missing_message()),
            Some(m) => Ok(ArgsView {
                message: m,
                buttons: st.buttons,
                message_type: match st.message_type {
                    Some(t) => t,
                    None => "error"@,
                },
                detailed_message: st.detailed_message,
            }),
        },
    }
}

pub open spec fn strings_view(v: Seq<String>) -> Seq<Seq<char>> {
    v.map_values(|s: String| s@)
}

spec fn scan_state_of(
    message: Option<String>,
    message_type: Option<String>,
    buttons: Seq<ArgButton>,
    detailed_message: bool,
) -> ScanState {
    ScanState {
        message: match message {
            Some(m) => Some(m@),
            None => None,
        },
        message_type: match message_type {
            Some(m) => Some(m@),
            None => None,
        },
        buttons: buttons.map_values(|b: ArgButton| b@),
        detailed_message,
    }
}

fn text_is(t: &String, lit: &str) -> (r: bool)
    ensures
        r == (t@ == lit@),
{
    let s = String::from_str(lit);
    *t == s
}

/// Parses the command line, program name first.
pub fn parse(args: Vec<String>) -> (r: Result<Args, String>)
    ensures
        match (r, parse_spec(strings_view(args@))) {
            (Ok(a), Ok(v)) => a@ == v,
            (Err(e), Err(v)) => e@ == v,
            _ => false,
        },
{
    let ghost toks = strings_view(args@);
    let mut message: Option<String> = None;
    let mut message_type: Option<String> = None;
    let mut buttons: Vec<ArgButton> = Vec::new();
    let mut detailed_message = false;
    let n = args.len();
    let mut i: usize = 1;
    assert(scan_state_of(message, message_type, buttons@, detailed_message) == initial_scan_state())
        by {
        assert(buttons@.map_values(|b: ArgButton| b@) =~= Seq::<ButtonView>::empty());
    }
    while i < n
        invariant
            n == args@.len(),
            toks == strings_view(args@),
            1 <= i,
            scan(toks, 1, initial_scan_state()) == scan(
                toks,
                i as int,
                scan_state_of(message, message_type, buttons@, detailed_message),
            ),
        decreases n - i,
    {
        let t = &args[i];
        if text_is(t, "-m") || text_is(t, "--message") {
            if i + 1 < n {
                message = Some(args[i + 1].clone());
                i = i + 2;
            } else {
                return Err(String::from_str("missing required arg message (-m/--message)"));
            }
        } else if text_is(t, "-t") || text_is(t, "--type") {
            if i + 1 < n {
                message_type = Some(args[i + 1].clone());
                i = i + 2;
            } else {
                return Err(String::from_str("missing required arg type (-t/--type)"));
            }
        } else if text_is(t, "-l") || text_is(t, "--detailed-message") {
            detailed_message = true;
            i = i + 1;
        } else if text_is(t, "-b") || text_is(t, "--button") || text_is(t, "-B") || text_is(
            t,
            "--button-no-terminal",
        ) {
            if i + 1 >= n {
                return Err(String::from_str("button missing text"));
            } else if i + 2 >= n {
                return Err(String::from_str("button missing action"));
            } else {
                let b = ArgButton { text: args[i + 1].clone(), action: args[i + 2].clone() };
                let ghost before = buttons@;
                buttons.push(b);
                assert(buttons@.map_values(|b: ArgButton| b@) =~= before.map_values(
                    |b: ArgButton| b@,
                ).push((toks[i + 1], toks[i + 2])));
                i = i + 3;
            }
        } else {
            let mut e = String::from_str("invalid arg '");
            e.append(t.as_str());
            e.append("'");
            return Err(e);
        }
    }
    match message {
        Some(message) => {
            let message_type = match message_type {
                Some(t) => t,
                None => String::from_str("error"),
            };
            Ok(Args { message, buttons, message_type, detailed_message })
        },
        None => Err(String::from_str("missing required arg message (-m/--message)")),
    }
}

} // verus!
