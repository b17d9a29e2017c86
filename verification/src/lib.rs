//! A word-scramble quiz: a lexicon of words, a puzzle generator that scrambles
//! a word and offers four lettered choices for its first letter, a per-user
//! session store with a running score, and the conversation engine that maps
//! an inbound text message to one reply.

pub mod client;
pub mod clock;
pub mod laws;
pub mod puzzle;
pub mod random;
pub mod reply;
pub mod session;
pub mod stats;
pub mod text;
pub mod word_generator;
