//! A buffering console: leveled messages gathered into one text, optional
//! removal of ANSI codes, and a status spinner.
use vstd::prelude::*;
use crate::spinner::braille_frames;
use crate::spinner_state::{SpinnerState, SpinnerStateView};
use crate::text::{decimal, decimal_string};
use crate::verbosity::Verbosity;

verus! {

/// The text that ANSI stripping leaves of `s`.
pub uninterp spec fn ansi_clean_of(s: Seq<char>) -> Seq<char>;

/// True when `s` holds neither ESC nor the one-character CSI, the two
/// characters that every ANSI code starts with.
pub open spec fn escape_free(s: Seq<char>) -> bool {
    forall|i: int| 0 <= i < s.len() ==> #[trigger] s[i] != '\x1b' && s[i] != '\u{9b}'
}

/// Relies on `ansistr::clean_str`: it removes every match of a pattern of
/// ANSI codes, each of which starts with ESC or CSI, and depends on the
/// text alone; text with neither character comes back as it is.
#[verifier::external_body]
fn clean_str(s: &str) -> (r: String)
    ensures
        r@ == ansi_clean_of(s@),
        escape_free(s@) ==> r@ == s@,
{
    ansistr::clean_str(s)
}

/// A [`Console`] seen as plain values.
pub struct ConsoleView {
    pub spinner: SpinnerStateView,
    pub verbosity: Verbosity,
    pub stripansi: bool,
    pub speed: u64,
    pub chars: Seq<Seq<char>>,
    pub message: Seq<char>,
}

/// What a message adds to the console's text: nothing above the console's
/// verbosity, else the message, stripped of ANSI codes when asked.
pub open spec fn logged(c: ConsoleView, level: Verbosity, txt: Seq<char>) -> Seq<char> {
    if c.verbosity.rank() >= level.rank() {
        normalized(c, txt)
    } else {
        Seq::empty()
    }
}

pub open spec fn normalized(c: ConsoleView, txt: Seq<char>) -> Seq<char> {
    if c.stripansi {
        ansi_clean_of(txt)
    } else {
        txt
    }
}

/// The percentage shown by `progress`: the whole part of `size / total`,
/// times one hundred; zero when `total` is zero.
pub open spec fn percent(total: u64, size: u64) -> nat {
    if total == 0 {
        0
    } else {
        (size / total) as nat * 100
    }
}

/// The console.
#[derive(Debug)]
pub struct Console {
    spinner: SpinnerState,
    verbosity: Verbosity,
    stripansi: bool,
    speed: u64,
    chars: Vec<String>,
    message: String,
}

impl View for Console {
    type V = ConsoleView;

    closed spec fn view(&self) -> ConsoleView {
        ConsoleView {
            spinner: self.spinner@,
            verbosity: self.verbosity,
            stripansi: self.stripansi,
            speed: self.speed,
            chars: self.chars@.map_values(|c: String| c@),
            message: self.message@,
        }
    }
}

impl Console {
    pub fn verbosity(&self) -> (r: &Verbosity)
        ensures
            *r == self@.verbosity,
    {
        &self.verbosity
    }

    pub fn stripansi(&self) -> (r: &bool)
        ensures
            *r == self@.stripansi,
    {
        &self.stripansi
    }

    pub fn speed(&self) -> (r: &u64)
        ensures
            *r == self@.speed,
    {
        &self.speed
    }

    /// The status spinner: its frames, message, speed, and whether it runs.
    pub fn spinner(&self) -> (r: &SpinnerState)
        ensures
            r@ == self@.spinner,
    {
        &self.spinner
    }

    pub fn chars(&self) -> (r: &Vec<String>)
        ensures
            r@.map_values(|c: String| c@) == self@.chars,
    {
        &self.chars
    }

    pub fn set_verbosity(&mut self, verbosity: Verbosity)
        ensures
            final(self)@ == (ConsoleView { verbosity: verbosity, ..old(self)@ }),
    {
        self.verbosity = verbosity;
    }

    pub fn set_stripansi(&mut self, strip: bool)
        ensures
            final(self)@ == (ConsoleView { stripansi: strip, ..old(self)@ }),
    {
        self.stripansi = strip;
    }

    /// Sets the speed of the console and of its spinner.
    pub fn set_spinner_speed(&mut self, speed: u64)
        ensures
            final(self)@ == (ConsoleView {
                speed: speed,
                spinner: SpinnerStateView { speed: speed, ..old(self)@.spinner },
                ..old(self)@
            }),
    {
        self.speed = speed;
        self.spinner.speed = speed;
    }

    /// Sets the frames of the console and of its spinner.
    pub fn set_spinner_chars(&mut self, chars: Vec<String>)
        ensures
            final(self)@ == (ConsoleView {
                chars: chars@.map_values(|c: String| c@),
                spinner: SpinnerStateView {
                    chars: chars@.map_values(|c: String| c@),
                    ..old(self)@.spinner
                },
                ..old(self)@
            }),
    {
        let copy = chars.clone();
        assert(copy@ =~= chars@);
        self.chars = chars;
        self.spinner.chars = copy;
    }

    /// Appends `txt` to the console's text, whatever the verbosity.
    pub fn write(&mut self, txt: &str) -> (r: &mut Self)
        ensures
            (*r)@ == (ConsoleView { message: old(self)@.message + txt@, ..old(self)@ }),
            *final(self) == *final(r),
    {
        self.message.append(txt);
        self
    }

    fn log(&mut self, level: Verbosity, txt: &str)
        ensures
            final(self)@ == (ConsoleView {
                message: old(self)@.message + logged(old(self)@, level, txt@),
                ..old(self)@
            }),
    {
        if self.can_write(level) {
            let normal = self.normalize(txt);
            self.message.append(normal.as_str());
        } else {
            assert(self@.message + Seq::<char>::empty() =~= self@.message);
        }
    }

    /// Appends `txt` when the verbosity lets debug messages through.
    pub fn debug(&mut self, txt: &str) -> (r: &mut Self)
        ensures
            (*r)@ == (ConsoleView {
                message: old(self)@.message + logged(old(self)@, Verbosity::Debug, txt@),
                ..old(self)@
            }),
            *final(self) == *final(r),
    {
        self.log(Verbosity::Debug, txt);
        self
    }

    /// Appends `txt` when the verbosity lets informational messages through.
    pub fn info(&mut self, txt: &str) -> (r: &mut Self)
        ensures
            (*r)@ == (ConsoleView {
                message: old(self)@.message + logged(old(self)@, Verbosity::Info, txt@),
                ..old(self)@
            }),
            *final(self) == *final(r),
    {
        self.log(Verbosity::Info, txt);
        self
    }

    /// Appends `txt` when the verbosity lets warnings through.
    pub fn warn(&mut self, txt: &str) -> (r: &mut Self)
        ensures
            (*r)@ == (ConsoleView {
                message: old(self)@.message + logged(old(self)@, Verbosity::Warning, txt@),
                ..old(self)@
            }),
            *final(self) == *final(r),
    {
        self.log(Verbosity::Warning, txt);
        self
    }

    /// Appends `txt` when the verbosity lets errors through.
    pub fn error(&mut self, txt: &str) -> (r: &mut Self)
        ensures
            (*r)@ == (ConsoleView {
                message: old(self)@.message + logged(old(self)@, Verbosity::Error, txt@),
                ..old(self)@
            }),
            *final(self) == *final(r),
    {
        self.log(Verbosity::Error, txt);
        self
    }

    /// Stops the spinner, empties the console's text and returns it,
    /// stripped of ANSI codes when asked. The caller prints it.
    pub fn flush(&mut self) -> (r: String)
        ensures
            r@ == normalized(old(self)@, old(self)@.message),
            final(self)@ == (ConsoleView {
                message: Seq::empty(),
                spinner: SpinnerStateView { started: false, ..old(self)@.spinner },
                ..old(self)@
            }),
    {
        self.spinner.started = false;
        let output = self.normalize(self.message.as_str());
        self.message = String::new();
        output
    }

    /// Stops the spinner and discards the console's text.
    pub fn drain(&mut self) -> (r: &mut Self)
        ensures
            (*r)@ == (ConsoleView {
                message: Seq::empty(),
                spinner: SpinnerStateView { started: false, ..old(self)@.spinner },
                ..old(self)@
            }),
            *final(self) == *final(r),
    {
        self.spinner.started = false;
        self.message = String::new();
        self
    }

    /// Starts the spinner with `txt` as its message.
    pub fn spin(&mut self, txt: &str) -> (r: &mut Self)
        ensures
            (*r)@ == (ConsoleView {
                spinner: SpinnerStateView { started: true, message: txt@, ..old(self)@.spinner },
                ..old(self)@
            }),
            *final(self) == *final(r),
    {
        self.spinner.started = true;
        self.spinner.message = String::from_str(txt);
        self
    }

    /// Starts the spinner with the percentage of `size` over `total`
    /// followed by `txt` as its message.
    pub fn progress(&mut self, total: u64, size: u64, txt: &str) -> (r: &mut Self)
        requires
            percent(total, size) <= u64::MAX,
        ensures
            (*r)@ == (ConsoleView {
                spinner: SpinnerStateView {
                    started: true,
                    message: decimal(percent(total, size)) + "% "@ + txt@,
                    ..old(self)@.spinner
                },
                ..old(self)@
            }),
            *final(self) == *final(r),
    {
        let perc: u64 = if total == 0 {
            0
        } else {
            size / total * 100
        };
        let mut message = decimal_string(perc);
        message.append("% ");
        message.append(txt);
        self.spinner.started = true;
        self.spinner.message = message;
        self
    }

    fn can_write(&self, verbosity: Verbosity) -> (r: bool)
        ensures
            r == (self@.verbosity.rank() >= verbosity.rank()),
    {
        self.verbosity.level() >= verbosity.level()
    }

    fn normalize(&self, txt: &str) -> (r: String)
        ensures
            r@ == normalized(self@, txt@),
    {
        if self.stripansi {
            clean_str(txt)
        } else {
            String::from_str(txt)
        }
    }
}

impl Default for Console {
    /// Debug verbosity, no stripping, ten braille frames 30 ms apart, and
    /// no text yet.
    fn default() -> (r: Console)
        ensures
            r@.verbosity == Verbosity::Debug,
            !r@.stripansi,
            r@.speed == 30,
            r@.chars == braille_frames(),
            r@.message.len() == 0,
            !r@.spinner.started,
            r@.spinner.chars == r@.chars,
            r@.spinner.speed == 30,
    {
        let mut chars: Vec<String> = Vec::new();
        chars.push(String::from_str("⠋"));
        chars.push(String::from_str("⠙"));
        chars.push(String::from_str("⠹"));
        chars.push(String::from_str("⠸"));
        chars.push(String::from_str("⠼"));
        chars.push(String::from_str("⠴"));
        chars.push(String::from_str("⠦"));
        chars.push(String::from_str("⠧"));
        chars.push(String::from_str("⠇"));
        chars.push(String::from_str("⠏"));
        let speed: u64 = 30;
        let copy = chars.clone();
        assert(copy@ =~= chars@);
        assert(chars@.map_values(|c: String| c@) =~= braille_frames());
        Console {
            spinner: SpinnerState { chars: copy, message: String::new(), speed, started: false },
            verbosity: Verbosity::Debug,
            stripansi: false,
            speed,
            chars,
            message: String::new(),
        }
    }
}

} // verus!
