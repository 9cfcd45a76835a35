//! Sequencer grouping for the Popsicle parachain, with its chain specification.
//!
//! `sequencer_grouping` holds the pallet's storage and dispatchable calls as a
//! verified state machine; `keys` derives development keys from seeds;
//! `chain_spec` builds the development and local test network specifications
//! and their genesis configuration.

pub mod chain_spec;
pub mod keys;
pub mod sequencer_grouping;
