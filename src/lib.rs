//! Verified logic of a small LAN service that moves the host's mouse pointer:
//! choosing the address to bind to, rewriting the server's configuration
//! template, computing pointer targets, and building response texts.

mod config;
mod decimal;
mod netif;
mod pointer;
mod responses;
mod text;

pub use config::{
    lemma_replace_by_itself, lemma_startup_binds_wifi_host, replace_all, replaced, rewrite_config,
    rewritten, startup_config, startup_text, DEFAULT_HOST,
};
pub use decimal::{decimal, digit_char, push_decimal, to_decimal};
pub use netif::{
    dotted_quad, find_interface_host, ipv4_text, is_candidate, select_bind_host, selected_host,
    BindTarget, InterfaceRecord, IpAddress, DEFAULT_PORT, WIFI_INTERFACE,
};
pub use pointer::{
    lemma_move_lands_clamped, moved, saturate_i32, saturating_sum, screen_clamp, target_position,
    MouseDelta, PointerPosition,
};
pub use responses::{wait_message, wait_text};
pub use text::{chars_of, str_eq};
