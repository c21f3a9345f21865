pub mod apci_params;
pub mod app_layer_params;
pub mod cause_of_transmission;
pub mod common_address;
pub mod duration;
pub mod link_layer_params;
pub mod originator_address;
pub mod quality;
pub mod time;
pub mod type_id;

pub use apci_params::{ApciParameters, ApciParametersBuilder, DEFAULT_PORT, DEFAULT_TLS_PORT};
pub use app_layer_params::{AppLayerParameters, AppLayerParametersBuilder};
pub use cause_of_transmission::CauseOfTransmission;
pub use common_address::CommonAddress;
pub use link_layer_params::{LinkLayerParameters, LinkLayerParametersBuilder};
pub use originator_address::OriginatorAddress;
pub use quality::{DoublePointValue, OutputCircuitInfo, QualityDescriptor, QualityDescriptorP, StartEvent};
pub use time::{Cp16Time2a, Cp24Time2a, Cp56Time2a};
pub use type_id::{InvalidTypeId, TypeId};
