//! The session settings: which device to open, and with what buffer and rate.

use crate::text::decimal_text;
use crate::text::push_decimal;
use vstd::prelude::*;

verus! {

/// The settings of a session.
#[derive(Debug, Clone, PartialEq, Eq)]
pub struct Settings {
    /// Identifier of the audio device.
    pub device: String,
    /// Buffer size in frames.
    pub buffer_frames: u32,
    /// Sample rate in hertz.
    pub sample_rate: u32,
}

/// The lines that present a session: the version, then each setting.
pub open spec fn summary_text(
    version: Seq<char>,
    device: Seq<char>,
    buffer_frames: nat,
    sample_rate: nat,
) -> Seq<char> {
    "DeeJay v"@ + version + "\ndevice: "@ + device + "\nbuffer_frames: "@ + decimal_text(
        buffer_frames,
    ) + "\nsample_rate: "@ + decimal_text(sample_rate)
}

impl Default for Settings {
    /// The settings used where none were saved.
    fn default() -> (settings: Settings)
        ensures
            settings.device@ == "default"@,
            settings.buffer_frames == 512,
            settings.sample_rate == 48_000,
    {
        Settings { device: String::from_str("default"), buffer_frames: 512, sample_rate: 48_000 }
    }
}

impl Settings {
    /// The relative path of the file that holds the saved settings.
    pub fn path() -> (path: String)
        ensures
            path@ == "settings.json"@,
    {
        String::from_str("settings.json")
    }

    /// The settings with each given value in place of the one held.
    pub fn with_overrides(
        self,
        device: Option<String>,
        buffer_frames: Option<u32>,
        sample_rate: Option<u32>,
    ) -> (settings: Settings)
        ensures
            settings.device@ == (match device {
                Some(name) => name@,
                None => self.device@,
            }),
            settings.buffer_frames == (match buffer_frames {
                Some(frames) => frames,
                None => self.buffer_frames,
            }),
            settings.sample_rate == (match sample_rate {
                Some(rate) => rate,
                None => self.sample_rate,
            }),
    {
        let mut settings = self;
        if let Some(name) = device {
            settings.device = name;
        }
        if let Some(frames) = buffer_frames {
            settings.buffer_frames = frames;
        }
        if let Some(rate) = sample_rate {
            settings.sample_rate = rate;
        }
        settings
    }

    /// The text that presents the session under these settings.
    pub fn summary(&self, version: &str) -> (text: String)
        ensures
            text@ == summary_text(
                version@,
                self.device@,
                self.buffer_frames as nat,
                self.sample_rate as nat,
            ),
    {
        let mut text = String::from_str("DeeJay v");
        text.append(version);
        text.append("\ndevice: ");
        text.append(self.device.as_str());
        text.append("\nbuffer_frames: ");
        push_decimal(&mut text, self.buffer_frames);
        text.append("\nsample_rate: ");
        push_decimal(&mut text, self.sample_rate);
        assert(text@ =~= summary_text(
            version@,
            self.device@,
            self.buffer_frames as nat,
            self.sample_rate as nat,
        ));
        text
    }
}

} // verus!
