//! The wizard that seats the players: how many, which colours, in which order.

pub mod player_count_state;
pub mod player_order_state;
pub mod player_pawn_color_state;
pub mod screen;
