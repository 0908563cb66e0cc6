//! Forwarding policy for a tunnel endpoint: how inbound TCP, UDP and ICMP
//! requests become outbound connections and multiplexed datagram sessions.
pub mod addr;
pub mod auth;
pub mod error;
pub mod forwarder;
pub mod icmp;
pub mod ids;
pub mod pipe;
pub mod tcp;
pub mod udp;
