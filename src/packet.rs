//! The packets that travel between peers, and their wire forms.
pub mod data_packet;
pub mod discovery_packet;
pub mod file_coming_packet;
pub mod file_part_packet;
pub mod file_part_response_packet;
pub mod file_receive_response_packet;
pub mod file_sending_packet;
pub mod magic_numbers;
pub mod text_packet;
