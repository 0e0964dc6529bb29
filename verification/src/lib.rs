//! A rule-chain text transformer.
//!
//! A session holds an input text, an ordered list of substitution rules and
//! the output of the last successful run. Each rule is a regular
//! expression, a replacement template and a case-sensitivity flag. Applying
//! the chain runs the rules over the input from the last rule to the first
//! and either commits the transformed text as the new output or, if a
//! pattern does not compile, leaves the output alone and logs a diagnostic.
//!
//! * [`rule`]: one rule, its effective pattern and effective replacement.
//! * [`template`]: the expansion of backslash + `n` pairs in a template.
//! * [`store`]: the ordered sequence of rules and its editing operations.
//! * [`engine`]: the call into the regular-expression engine, trusted.
//! * [`pipeline`]: the executor that runs a chain over a text.
//! * [`session`]: buffers, rules and log together, and the host's commands.
//! * [`laws`]: what holds of all of the above, for every input.
//!
//! Every executable function is verified against its contract. The
//! regular-expression engine itself is not: its answers enter the contracts
//! under the names declared in [`engine`].

pub mod engine;
pub mod laws;
pub mod pipeline;
pub mod rule;
pub mod session;
pub mod store;
pub mod template;
