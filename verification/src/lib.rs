//! A verified picture processing unit for a monochrome 8-bit handheld
//! console: tile-indexed video memory and a sprite attribute table are
//! turned into a 160x144 RGBA frame, cycle-for-cycle in lockstep with the
//! host processor's clock.

mod gpu;
mod palette;
mod regs;
mod render;
mod tile;

pub use gpu::Gpu;
pub use gpu::Mode;
pub use gpu::Palettes;
pub use gpu::Tiles;
pub use gpu::mode_bits;
pub use gpu::spec_mode_bits;
pub use gpu::spec_bgbase;
pub use gpu::filled_u8;
pub use gpu::filled_bool;
pub use gpu::VRAM_SIZE;
pub use gpu::OAM_SIZE;
pub use gpu::HEIGHT;
pub use gpu::WIDTH;
pub use gpu::FRAME_BYTES;
pub use gpu::TILE_DATA_LEN;
pub use gpu::INT_VBLANK;
pub use gpu::INT_LCDSTAT;
pub use gpu::same_except_vram_tiles;
pub use gpu::same_except_frame;
pub use gpu::same_except_frame_and_cache;
pub use gpu::lemma_cache_ok_views;
pub use regs::spec_rb;
pub use regs::spec_lcdc_byte;
pub use regs::spec_stat_byte;
pub use regs::lcd_enable_edge;
pub use regs::spec_wb;
pub use render::RenderCfg;
pub use render::bit_u8;
pub use render::decoded_tiles;
pub use render::lemma_decoded_pixel;
pub use render::spec_bg_color_at;
pub use render::spec_win_covers;
pub use render::spec_win_color_at;
pub use render::spec_scan_at;
pub use render::spec_base_written;
pub use render::spec_sprite_y0;
pub use render::spec_sprite_x0;
pub use render::spec_sprite_flags;
pub use render::spec_sprite_height;
pub use render::spec_sprite_on_line;
pub use render::spec_sprite_tile;
pub use render::spec_sprite_row;
pub use render::spec_sprite_pix;
pub use render::spec_sprite_draws;
pub use render::spec_sprite_first;
pub use render::lemma_sprite_first_draws;
pub use render::spec_sprite_color;
pub use render::spec_row_pixel_byte;
pub use render::set_pixel;
pub use render::set_pixel_index;

pub use palette::update_pal;
pub use palette::palette_bw;
pub use palette::palette_green;
pub use palette::palette_puke_green;
pub use palette::pal_slot;
pub use palette::pal_compiled;
pub use palette::Color;
pub use tile::tile_pix;
pub use tile::tile_pix_in_vram;
pub use tile::signed_tile_offset;
pub use tile::resolve_tile;
pub use tile::NUM_TILES;
