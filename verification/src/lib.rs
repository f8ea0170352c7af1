pub mod hex_text;
pub mod node_command;
pub mod node_status;
pub mod gvm_node;
pub mod errors;
pub mod gvm_server_event;
pub mod wire;
pub mod gvm_server_codec;
pub mod text;
pub mod gvm_server_mqtt_light_entity;
pub mod gvm_node_mqtt;
pub mod gvm_server_mqtt;
pub mod gvm_server_custom;
pub mod codec;
pub mod ble_client;
pub mod cli;
