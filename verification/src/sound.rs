//! The sound playback boundary.
use vstd::prelude::*;

verus! {

/// Plays user-selected sound files, named by their paths in the operating system's bytes,
/// outside the application domain.
pub trait SoundPlayer {
    /// Plays a one-shot completion sound without blocking the event loop.
    fn play_completion(&mut self, file: &[u8]);

    /// Stops any still-playing one-shot completion sound.
    fn stop_completion(&mut self);

    /// Starts a Focus loop or resumes the already installed loop.
    fn start_or_resume_focus(&mut self, file: &[u8]);

    /// Pauses the installed Focus loop, retaining its position.
    fn pause_focus(&mut self);

    /// Stops and removes the installed Focus loop.
    fn stop_focus(&mut self);
}

} // verus!
