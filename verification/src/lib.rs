//! Core of a fluid-dynamics simulation driver: a verified command-line
//! interpreter that turns a token stream into a run configuration, and a
//! mesh descriptor answering geometric queries.

use vstd::prelude::*;

mod cmdline;
mod error;
mod mesh;
mod numparse;
mod props;
mod strutil;
mod tokenize;

pub use cmdline::Capabilities;
pub use cmdline::CommandLine;
pub use cmdline::ConfigModel;
pub use cmdline::PState;
pub use cmdline::SpecResult;
pub use cmdline::StepResult;
pub use cmdline::help_text;
pub use cmdline::parse_command_line;
pub use cmdline::version_text;
pub use error::Error;
pub use mesh::Mesh;
pub use mesh::StructuredMesh;
pub use mesh::f64_bits_lt;
pub use mesh::f64_bits_min;
pub use mesh::lemma_structured_min_spacing_is_an_axis;
pub use numparse::IntParseError;
pub use numparse::check_f64_literal;
pub use numparse::int_err_desc_str;
pub use numparse::parse_uint;
pub use props::lemma_dangling_flag;
pub use props::lemma_exclusive_flags_rejected;
pub use props::lemma_flag_value_forms;
pub use props::lemma_help_version_short_circuit;
pub use props::lemma_rk_order_in_range;
pub use props::lemma_unrecognized_token;
pub use strutil::str_eq_str;
pub use tokenize::preprocess_args;

verus! {

} // verus!
