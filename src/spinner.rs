//! Animation frames and the template that turns a frame and a message into
//! the text of an animated pinned line.
use vstd::prelude::*;
use crate::text::{replace, replace_all};

verus! {

/// A [`Spinner`] seen as plain values.
pub struct SpinnerView {
    pub frames: Seq<Seq<char>>,
    pub speed: u32,
    pub tpl: Seq<char>,
}

/// The frame shown next: the first one, or nothing when there are none.
pub open spec fn current_frame(frames: Seq<Seq<char>>) -> Seq<char> {
    if frames.len() == 0 {
        Seq::empty()
    } else {
        frames[0]
    }
}

/// The frame list after one frame was shown: the first frame moves last.
pub open spec fn rotated(frames: Seq<Seq<char>>) -> Seq<Seq<char>> {
    if frames.len() == 0 {
        frames
    } else {
        frames.skip(1).push(frames[0])
    }
}

/// The template with its frame placeholder filled first and its message
/// placeholder second.
pub open spec fn render(tpl: Seq<char>, frame: Seq<char>, message: Seq<char>) -> Seq<char> {
    replace_all(replace_all(tpl, "#{frame}"@, frame), "#{message}"@, message)
}

/// The ten braille frames that spinners start with.
pub open spec fn braille_frames() -> Seq<Seq<char>> {
    seq!["⠋"@, "⠙"@, "⠹"@, "⠸"@, "⠼"@, "⠴"@, "⠦"@, "⠧"@, "⠇"@, "⠏"@]
}

/// The frames, the interval between two frames in milliseconds, and the
/// template of an animated line. The template may hold `#{frame}` and
/// `#{message}`. The frame list may be empty: every frame is then the empty
/// string.
#[derive(Debug)]
pub struct Spinner {
    frames: Vec<String>,
    speed: u32,
    tpl: String,
}

impl View for Spinner {
    type V = SpinnerView;

    closed spec fn view(&self) -> SpinnerView {
        SpinnerView {
            frames: self.frames@.map_values(|f: String| f@),
            speed: self.speed,
            tpl: self.tpl@,
        }
    }
}

impl Spinner {
    /// A spinner with the given frames, interval and template.
    pub fn new(frames: Vec<String>, speed: u32, tpl: String) -> (r: Spinner)
        ensures
            r@ == (SpinnerView {
                frames: frames@.map_values(|f: String| f@),
                speed: speed,
                tpl: tpl@,
            }),
    {
        Spinner { frames, speed, tpl }
    }

    /// Sets the animation frames.
    pub fn set_frames(&mut self, frames: Vec<String>)
        ensures
            final(self)@ == (SpinnerView {
                frames: frames@.map_values(|f: String| f@),
                ..old(self)@
            }),
    {
        self.frames = frames;
    }

    /// Sets the interval between two frames, in milliseconds.
    pub fn set_speed(&mut self, speed: u32)
        ensures
            final(self)@ == (SpinnerView { speed: speed, ..old(self)@ }),
    {
        self.speed = speed;
    }

    /// The interval between two frames, in milliseconds.
    pub fn speed(&self) -> (r: u32)
        ensures
            r == self@.speed,
    {
        self.speed
    }

    /// Returns the next frame and moves it to the end of the list; with no
    /// frames it returns an empty string.
    pub fn next_frame(&mut self) -> (r: String)
        ensures
            r@ == current_frame(old(self)@.frames),
            final(self)@ == (SpinnerView { frames: rotated(old(self)@.frames), ..old(self)@ }),
    {
        let ghost frames = self@.frames;
        if self.frames.len() == 0 {
            return String::new();
        }
        let frame = self.frames.remove(0);
        self.frames.push(frame.clone());
        assert(self@.frames =~= rotated(frames));
        frame
    }

    /// Renders the template with the next frame and `data`, and advances the
    /// animation by one frame.
    pub fn next_message(&mut self, data: &str) -> (r: String)
        ensures
            r@ == render(old(self)@.tpl, current_frame(old(self)@.frames), data@),
            final(self)@ == (SpinnerView { frames: rotated(old(self)@.frames), ..old(self)@ }),
    {
        let frame = self.next_frame();
        let frame_pat = "#{frame}";
        let message_pat = "#{message}";
        proof {
            reveal_strlit("#{frame}");
            reveal_strlit("#{message}");
        }
        let with_frame = replace(self.tpl.as_str(), frame_pat, frame.as_str());
        replace(with_frame.as_str(), message_pat, data)
    }
}

impl Clone for Spinner {
    fn clone(&self) -> (r: Spinner)
        ensures
            r@ == self@,
    {
        let frames = self.frames.clone();
        assert(frames@ =~= self.frames@);
        Spinner { frames, speed: self.speed, tpl: self.tpl.clone() }
    }
}

impl Default for Spinner {
    /// Ten braille frames, 30 ms apart, shown before the message.
    fn default() -> (r: Spinner)
        ensures
            r@.frames == braille_frames(),
            r@.speed == 30,
            r@.tpl == "#{frame} #{message}"@,
    {
        let mut frames: Vec<String> = Vec::new();
        frames.push(String::from_str("⠋"));
        frames.push(String::from_str("⠙"));
        frames.push(String::from_str("⠹"));
        frames.push(String::from_str("⠸"));
        frames.push(String::from_str("⠼"));
        frames.push(String::from_str("⠴"));
        frames.push(String::from_str("⠦"));
        frames.push(String::from_str("⠧"));
        frames.push(String::from_str("⠇"));
        frames.push(String::from_str("⠏"));
        let r = Spinner { frames, speed: 30, tpl: String::from_str("#{frame} #{message}") };
        assert(r@.frames =~= braille_frames());
        r
    }
}

} // verus!
