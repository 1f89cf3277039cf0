use vstd::prelude::*;

mod bus;
mod error;
mod file;
mod flash;
mod io;
mod report;
mod flasher;
mod laws;
mod model;
mod sim;

pub use bus::EcBus;
pub use error::EcError;
pub use file::EcFile;
pub use laws::{lemma_file_queries_stable, lemma_project_unique_tag, lemma_round_trip, lemma_version_unique_tag};
pub use flasher::{spi_addr_bytes, Flasher};
pub use model::{EcModel, Phase, SpiPhase};
pub use flash::{check_id, size_of_class, EcFlash};
pub use io::PortIo;
pub use report::{accept_pair, accept_pair_size, validate, validate_size, StrQuery};
pub use sim::SimEc;

verus! {

/// The uniform query interface over a live EC or a captured image.
pub trait Ec {
    /// The device or image size in bytes.
    fn size(&mut self) -> usize;

    /// The project name.
    fn project(&mut self) -> String;

    /// The version string.
    fn version(&mut self) -> String;
}

} // verus!
