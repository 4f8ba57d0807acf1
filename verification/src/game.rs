//! What a running game needs beside the protocol.

pub mod movement;
