//! A small bounded worker pool, verified: the job queue that workers drain
//! (`queue`), the per-worker state machine (`worker`), and the pool's
//! lifecycle bookkeeping, from construction to join-once shutdown (`pool`).
//! Spawning threads and blocking on the queue are left to the caller; every
//! decision those threads make is taken here.
//!
//! Alongside the pool sit the smaller pieces that come with it: a line search
//! (`minigrep`), word handling and pig latin (`text`), shapes and guesses
//! (`shapes`), plants (`garden`), posts (`blog`), a quota tracker (`quota`),
//! news summaries (`news`), screens (`gui`), shirt stock (`inventory`), and
//! assorted small functions (`basics`, `advanced`).

pub mod queue;
pub mod pool;
pub mod worker;

pub mod advanced;
pub mod basics;
pub mod blog;
pub mod garden;
pub mod gui;
pub mod inventory;
pub mod minigrep;
pub mod news;
pub mod quota;
pub mod shapes;
pub mod text;
