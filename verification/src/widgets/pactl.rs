//! Reading what the sound server's command-line tool writes.
//!
//! The caller runs the tool and hands its output over as text; the
//! function here turns that text into the streams of the audio pane.

use crate::command::{CommandResult, CommandResultView};
use crate::text::{
    from_chars, lines, parse_u8, parse_u8_chars, second_piece, second_piece_of, slice_views,
    split_lines, starts_with_str, strip_both, strip_both_chars, strip_trailing,
    strip_trailing_chars, to_chars, trim, trim_chars, trim_start, trim_start_chars,
};
use crate::widgets::audio_mixer::{channels_view, AudioMixer};
use vstd::prelude::*;

verus! {

/// What has been read of the report of the streams so far: the identifier
/// and the volume that were seen last, and the streams that are complete.
pub struct SinkScan {
    pub id: Seq<char>,
    pub volume: u8,
    pub found: Seq<(Seq<char>, u8, Seq<char>)>,
}

/// The volume that the text `percent` states: the number before its
/// percent signs, and 0 where that is no number below 256.
pub open spec fn volume_of(percent: Seq<char>) -> u8 {
    match parse_u8(strip_trailing(trim(percent), '%')) {
        Some(volume) => volume,
        None => 0,
    }
}

/// The name of an application as the report quotes it: trimmed, then
/// without the quotation marks round it.
pub open spec fn unquoted(name: Seq<char>) -> Seq<char> {
    strip_both(trim(name), '"')
}

impl SinkScan {
    /// Nothing read yet.
    pub open spec fn start() -> SinkScan {
        SinkScan { id: Seq::empty(), volume: 0, found: Seq::empty() }
    }

    /// A line that begins with `Sink Input` gives the identifier: what
    /// stands between its first and its second number sign.
    pub open spec fn read_id(self, line: Seq<char>) -> SinkScan {
        if "Sink Input"@.is_prefix_of(trim_start(line)) {
            match second_piece(line, '#') {
                Some(id) => SinkScan { id, ..self },
                None => self,
            }
        } else {
            self
        }
    }

    /// A line that begins with `Volume:` gives the volume: what stands
    /// between its first and its second slash.
    pub open spec fn read_volume(self, line: Seq<char>) -> SinkScan {
        if "Volume:"@.is_prefix_of(trim_start(line)) {
            match second_piece(line, '/') {
                Some(percent) => SinkScan { volume: volume_of(percent), ..self },
                None => self,
            }
        } else {
            self
        }
    }

    /// A line that begins with `application.name =` gives the name, between
    /// its first and its second equals sign, and completes a stream with
    /// the volume and the identifier that were seen last.
    pub open spec fn read_name(self, line: Seq<char>) -> SinkScan {
        if "application.name ="@.is_prefix_of(trim_start(line)) {
            match second_piece(line, '=') {
                Some(name) => SinkScan {
                    found: self.found.push((unquoted(name), self.volume, self.id)),
                    ..self
                },
                None => self,
            }
        } else {
            self
        }
    }

    /// The scan after one more line.
    pub open spec fn read(self, line: Seq<char>) -> SinkScan {
        self.read_id(line).read_volume(line).read_name(line)
    }

    /// The scan after the lines `lines`.
    pub open spec fn of_lines(lines: Seq<Seq<char>>) -> SinkScan
        decreases lines.len(),
    {
        if lines.len() == 0 {
            SinkScan::start()
        } else {
            SinkScan::of_lines(lines.drop_last()).read(lines.last())
        }
    }
}

/// The streams that the report `stdout` tells of, in its order: for each
/// the name of the application, the volume in percent and the identifier.
pub open spec fn audio_list_of(stdout: Seq<char>) -> Seq<(Seq<char>, u8, Seq<char>)> {
    SinkScan::of_lines(lines(stdout)).found
}

/// The streams for the outcome of a run of the report: those that its
/// output tells of, and none where the command could not be run or
/// reported a failure.
pub open spec fn audio_list_of_result(result: CommandResultView) -> Option<
    Seq<(Seq<char>, u8, Seq<char>)>,
> {
    match result.output() {
        Some(stdout) => Some(audio_list_of(stdout)),
        None => None,
    }
}

/// The view of a list of streams that may be missing.
pub open spec fn channels_option_view(list: Option<Vec<(String, u8, String)>>) -> Option<
    Seq<(Seq<char>, u8, Seq<char>)>,
> {
    match list {
        Some(l) => Some(channels_view(l@)),
        None => None,
    }
}

impl AudioMixer {
    /// Reads the streams out of the outcome of a run of the report.  A run
    /// that failed gives `None`, and the pane keeps the list it has.
    pub fn audio_list_of_run(result: &CommandResult) -> (list: Option<Vec<(String, u8, String)>>)
        ensures
            channels_option_view(list) == audio_list_of_result(result@),
    {
        match result {
            CommandResult::Finished { success, stdout, stderr } => {
                if *success {
                    Some(AudioMixer::make_audio_list(stdout.as_str()))
                } else {
                    None
                }
            },
            CommandResult::Failed { error } => None,
        }
    }

    /// Reads the report of the playing streams.
    pub fn make_audio_list(stdout: &str) -> (list: Vec<(String, u8, String)>)
        ensures
            channels_view(list@) == audio_list_of(stdout@),
    {
        let chars = to_chars(stdout);
        let all = split_lines(chars.as_slice());
        let ghost views = lines(stdout@);
        let mut result: Vec<(String, u8, String)> = Vec::new();
        let mut current_id = String::new();
        let mut current_volume: u8 = 0;
        let mut i: usize = 0;
        proof {
            assert(channels_view(result@) =~= Seq::empty());
        }
        while i < all.len()
            invariant
                i <= all.len(),
                views == slice_views(all@),
                SinkScan::of_lines(views.take(i as int)) == (SinkScan {
                    id: current_id@,
                    volume: current_volume,
                    found: channels_view(result@),
                }),
            decreases all.len() - i,
        {
            let line = all[i];
            proof {
                assert(views.take(i + 1).drop_last() =~= views.take(i as int));
                assert(views.take(i + 1).last() == line@);
            }
            let head = trim_start_chars(line);
            if starts_with_str(head, "Sink Input") {
                match second_piece_of(line, '#') {
                    Some(id) => {
                        current_id = from_chars(id);
                    },
                    None => {},
                }
            }
            if starts_with_str(head, "Volume:") {
                match second_piece_of(line, '/') {
                    Some(percent) => {
                        let number = strip_trailing_chars(trim_chars(percent), '%');
                        current_volume = match parse_u8_chars(number) {
                            Some(volume) => volume,
                            None => 0,
                        };
                    },
                    None => {},
                }
            }
            if starts_with_str(head, "application.name =") {
                match second_piece_of(line, '=') {
                    Some(name) => {
                        let current_name = from_chars(strip_both_chars(trim_chars(name), '"'));
                        let ghost before = result@;
                        let entry = (current_name, current_volume, current_id.clone());
                        result.push(entry);
                        proof {
                            assert(channels_view(result@) =~= channels_view(before).push(
                                (entry.0@, entry.1, entry.2@),
                            ));
                        }
                    },
                    None => {},
                }
            }
            i += 1;
        }
        proof {
            assert(views.take(all.len() as int) =~= views);
        }
        result
    }
}

} // verus!
