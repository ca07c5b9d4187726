//! Orchestration of a hosted transcription job and reconstruction of a
//! speaker-attributed transcript from the job's token stream.
//!
//! The two halves are used one after the other:
//!
//! - [`orchestrator`] follows one job from its submission to its outcome. It
//!   is a state machine that is told what the service answered and says what
//!   is to be done next; [`job`], [`language`] and [`media`] hold what a job
//!   is made of, and [`error`] what is wrong with an input.
//! - [`payload`] reads the result payload of a completed job, and
//!   [`transcript`] merges its tokens into lines of one speaker each;
//!   [`runs`] states what those lines are.
//!
//! [`summary`], [`report`] and [`storage`] hold the rules of the steps around
//! a transcription: the prompt and the answer of a summarization, the
//! documents that are written out, and the names of the object store.
//! [`json`] and [`text`] are shared by the rest.

pub mod error;
pub mod job;
pub mod json;
pub mod language;
pub mod media;
pub mod orchestrator;
pub mod payload;
pub mod report;
pub mod runs;
pub mod storage;
pub mod summary;
pub mod text;
pub mod transcript;
