//! Verified decision logic of a property-testing harness for a decimal
//! floating-point parser: the property that compares the parser under test
//! with the standard library, the decimal inputs it is driven with, and the
//! JSON report a run ends with.

pub mod text;
pub mod ieee;
pub mod property;
pub mod runner;
pub mod report;
pub mod shape;
