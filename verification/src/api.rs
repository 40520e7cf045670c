//! What is said to the transcription and refinement provider, and what is
//! made of its replies. Sending and receiving are the caller's.

pub mod groq;
