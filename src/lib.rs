//! A small feed-forward network engine: the verified part holds the network's
//! structure (layer kinds, the shape of every stage, the loss kind) and the
//! decisions taken on it, plus the bookkeeping of a two-player game series.
pub mod game;
pub mod network;
