//! A verified lexical scanner for a small CSS-like style language.
//!
//! The scanner walks a byte buffer once and classifies each byte (or byte
//! pair, for the two-character operators) into a [`token::Token`], tagged
//! with its byte offset. Two consumption modes are offered: a raw mode that
//! reports every token including whitespace and the terminal end-of-file
//! marker, and a filtered mode that hides whitespace and stops at end of
//! file.

pub mod lexer;
pub mod token;
