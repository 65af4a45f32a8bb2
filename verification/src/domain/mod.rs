//! Value types of a pattern: each is made by a parser that admits only valid values.

pub mod author;
pub mod bpm;
pub mod description;
pub mod knob;
pub mod name;
pub mod new_tb303_pattern;
pub mod new_tb303_step;
pub mod note;
pub mod octave;
pub mod step_number;
pub mod tempo;
pub mod time;
pub mod title;
pub mod transpose;
pub mod waveform;

pub use author::Author;
pub use bpm::BPM;
pub use description::Description;
pub use knob::Knob;
pub use name::Name;
pub use new_tb303_pattern::NewTB303Pattern;
pub use new_tb303_step::NewTB303Step;
pub use note::Note;
pub use octave::Octave;
pub use step_number::StepNumber;
pub use tempo::Tempo;
pub use time::Time;
pub use title::Title;
pub use transpose::Transpose;
pub use waveform::Waveform;
