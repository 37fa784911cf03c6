//! The memory-mapped register bank: reads and writes of the control,
//! status, scroll, line, palette and window ports. Unmapped ports read as
//! the all-ones sentinel and ignore writes; so does the bank-select port
//! outside the extended mode.

use vstd::prelude::*;

use crate::gpu::Gpu;
use crate::gpu::Mode;
use crate::gpu::spec_mode_bits;
use crate::gpu::mode_bits;
use crate::gpu::lemma_cache_ok_views;
use crate::palette::pal_compiled;
use crate::palette::update_pal;

verus! {

/// The control port's byte: the eight LCD-control bits packed from most to
/// least significant.
pub open spec fn spec_lcdc_byte(g: Gpu) -> u8 {
    (if g.lcdon {
        0x80u8
    } else {
        0u8
    }) | (if g.winmap {
        0x40u8
    } else {
        0u8
    }) | (if g.winon {
        0x20u8
    } else {
        0u8
    }) | (if g.tiledata {
        0x10u8
    } else {
        0u8
    }) | (if g.bgmap {
        0x08u8
    } else {
        0u8
    }) | (if g.objsize {
        0x04u8
    } else {
        0u8
    }) | (if g.objon {
        0x02u8
    } else {
        0u8
    }) | (if g.bgon {
        0x01u8
    } else {
        0u8
    })
}

/// The status port's byte: the three stored interrupt-enable bits, the
/// coincidence-enable bit, and the two derived fields, the coincidence
/// flag and the mode encoding. The derived bits are computed, never
/// stored.
pub open spec fn spec_stat_byte(g: Gpu) -> u8 {
    (if g.lycly {
        0x40u8
    } else {
        0u8
    }) | (if g.mode2int {
        0x20u8
    } else {
        0u8
    }) | (if g.mode1int {
        0x10u8
    } else {
        0u8
    }) | (if g.mode0int {
        0x08u8
    } else {
        0u8
    }) | (if g.ly == g.lyc {
        0x04u8
    } else {
        0u8
    }) | spec_mode_bits(g.mode)
}

/// What a register read returns, port by port.
pub open spec fn spec_rb(g: Gpu, addr: u16) -> u8 {
    let p = addr & 0xff;
    if p == 0x40 {
        spec_lcdc_byte(g)
    } else if p == 0x41 {
        spec_stat_byte(g)
    } else if p == 0x42 {
        g.scy
    } else if p == 0x43 {
        g.scx
    } else if p == 0x44 {
        g.ly
    } else if p == 0x45 {
        g.lyc
    } else if p == 0x47 {
        g.bgp
    } else if p == 0x48 {
        g.obp0
    } else if p == 0x49 {
        g.obp1
    } else if p == 0x4a {
        g.wy
    } else if p == 0x4b {
        g.wx
    } else if p == 0x4f {
        if g.is_cgb {
            g.vrambank_sel
        } else {
            0xff
        }
    } else {
        0xff
    }
}

/// A write to the control port turns the display on while it was off: the
/// quirk that resets the current line and the cycle counter.
#[verifier::inline]
pub open spec fn lcd_enable_edge(pre: Gpu, addr: u16, val: u8) -> bool {
    &&& addr & 0xff == 0x40
    &&& !pre.lcdon
    &&& (val >> 7) & 1 != 0
}

impl Gpu {
    /// Read a register port. Unmapped ports, and the bank-select port
    /// outside the extended mode, return the all-ones sentinel.
    pub fn rb(&self, addr: u16) -> (r: u8)
        ensures
            r == spec_rb(*self, addr),
    {
        match addr & 0xff {
            0x40 => {
                (if self.lcdon {
                    0x80u8
                } else {
                    0u8
                }) | (if self.winmap {
                    0x40u8
                } else {
                    0u8
                }) | (if self.winon {
                    0x20u8
                } else {
                    0u8
                }) | (if self.tiledata {
                    0x10u8
                } else {
                    0u8
                }) | (if self.bgmap {
                    0x08u8
                } else {
                    0u8
                }) | (if self.objsize {
                    0x04u8
                } else {
                    0u8
                }) | (if self.objon {
                    0x02u8
                } else {
                    0u8
                }) | (if self.bgon {
                    0x01u8
                } else {
                    0u8
                })
            },
            0x41 => {
                (if self.lycly {
                    0x40u8
                } else {
                    0u8
                }) | (if self.mode2int {
                    0x20u8
                } else {
                    0u8
                }) | (if self.mode1int {
                    0x10u8
                } else {
                    0u8
                }) | (if self.mode0int {
                    0x08u8
                } else {
                    0u8
                }) | (if self.ly == self.lyc {
                    0x04u8
                } else {
                    0u8
                }) | mode_bits(self.mode)
            },
            0x42 => self.scy,
            0x43 => self.scx,
            0x44 => self.ly,
            0x45 => self.lyc,
            // 0x46 starts a sprite-table transfer on the bus side and
            // cannot be read back
            0x47 => self.bgp,
            0x48 => self.obp0,
            0x49 => self.obp1,
            0x4a => self.wy,
            0x4b => self.wx,
            0x4f => if self.is_cgb {
                self.vrambank_sel
            } else {
                0xff
            },
            _ => 0xff,
        }
    }

    /// Write a register port. The current-line port and the derived status
    /// bits are read-only; writes to unmapped ports are dropped; a palette
    /// write recompiles the corresponding palette on the spot; turning the
    /// display on resets the line and the cycle counter.
    pub fn wb(&mut self, addr: u16, val: u8)
        requires
            old(self).wf(),
        ensures
            final(self).wf(),
            spec_wb(*old(self), *final(self), addr, val),
    {
        match addr & 0xff {
            0x40 => self.wb_ctrl(addr, val),
            0x41 => self.wb_stat(addr, val),
            0x42 => self.wb_scroll(addr, val),
            0x43 => self.wb_scroll(addr, val),
            // 0x44, the current line, is read-only
            0x45 => self.wb_lyc(addr, val),
            0x47 => self.wb_palette(addr, val),
            0x48 => self.wb_palette(addr, val),
            0x49 => self.wb_palette(addr, val),
            0x4a => self.wb_winpos(addr, val),
            0x4b => self.wb_winpos(addr, val),
            0x4f => self.wb_bank(addr, val),
            _ => {
                proof {
                    assert(spec_wb(*old(self), *self, addr, val)) by {
                        reveal(spec_wb);
                    }
                }
            },
        }
    }

    /// The control port: unpack the eight LCD-control bits; an off-to-on
    /// edge of the display-enable bit resets the line and cycle counter.
    #[verifier::rlimit(100)]
    fn wb_ctrl(&mut self, addr: u16, val: u8)
        requires
            old(self).wf(),
            addr & 0xff == 0x40,
        ensures
            final(self).wf(),
            spec_wb(*old(self), *final(self), addr, val),
    {
        let before = self.lcdon;
        self.lcdon = (val >> 7) & 1 != 0;
        self.winmap = (val >> 6) & 1 != 0;
        self.winon = (val >> 5) & 1 != 0;
        self.tiledata = (val >> 4) & 1 != 0;
        self.bgmap = (val >> 3) & 1 != 0;
        self.objsize = (val >> 2) & 1 != 0;
        self.objon = (val >> 1) & 1 != 0;
        self.bgon = (val >> 0) & 1 != 0;
        if !before && self.lcdon {
            self.clock = 4;
            self.ly = 0;
        }
        proof {
            assert(spec_wb(*old(self), *self, addr, val)) by {
                reveal(spec_wb);
            }
            lemma_cache_ok_views(*old(self), *self);
        }
    }

    /// The status port: only the three mode-interrupt enables and the
    /// coincidence enable are stored; the mode and coincidence bits are
    /// derived and stay read-only.
    fn wb_stat(&mut self, addr: u16, val: u8)
        requires
            old(self).wf(),
            addr & 0xff == 0x41,
        ensures
            final(self).wf(),
            spec_wb(*old(self), *final(self), addr, val),
    {
        self.lycly = (val >> 6) & 1 != 0;
        self.mode2int = (val >> 5) & 1 != 0;
        self.mode1int = (val >> 4) & 1 != 0;
        self.mode0int = (val >> 3) & 1 != 0;
        proof {
            assert(spec_wb(*old(self), *self, addr, val)) by {
                reveal(spec_wb);
            }
            lemma_cache_ok_views(*old(self), *self);
        }
    }

    /// The two scroll ports.
    fn wb_scroll(&mut self, addr: u16, val: u8)
        requires
            old(self).wf(),
            addr & 0xff == 0x42 || addr & 0xff == 0x43,
        ensures
            final(self).wf(),
            spec_wb(*old(self), *final(self), addr, val),
    {
        if addr & 0xff == 0x42 {
            self.scy = val;
        } else {
            self.scx = val;
        }
        proof {
            assert(spec_wb(*old(self), *self, addr, val)) by {
                reveal(spec_wb);
            }
            lemma_cache_ok_views(*old(self), *self);
        }
    }

    /// The line-compare port.
    fn wb_lyc(&mut self, addr: u16, val: u8)
        requires
            old(self).wf(),
            addr & 0xff == 0x45,
        ensures
            final(self).wf(),
            spec_wb(*old(self), *final(self), addr, val),
    {
        self.lyc = val;
        proof {
            assert(spec_wb(*old(self), *self, addr, val)) by {
                reveal(spec_wb);
            }
            lemma_cache_ok_views(*old(self), *self);
        }
    }

    /// The three packed palette ports: store the byte and recompile the
    /// corresponding palette at once.
    fn wb_palette(&mut self, addr: u16, val: u8)
        requires
            old(self).wf(),
            addr & 0xff == 0x47 || addr & 0xff == 0x48 || addr & 0xff == 0x49,
        ensures
            final(self).wf(),
            spec_wb(*old(self), *final(self), addr, val),
    {
        if addr & 0xff == 0x47 {
            self.bgp = val;
            update_pal(&mut self.pal.bg, &self.base, val);
        } else if addr & 0xff == 0x48 {
            self.obp0 = val;
            update_pal(&mut self.pal.obp0, &self.base, val);
        } else {
            self.obp1 = val;
            update_pal(&mut self.pal.obp1, &self.base, val);
        }
        proof {
            assert(spec_wb(*old(self), *self, addr, val)) by {
                reveal(spec_wb);
            }
            lemma_cache_ok_views(*old(self), *self);
        }
    }

    /// The two window-position ports.
    fn wb_winpos(&mut self, addr: u16, val: u8)
        requires
            old(self).wf(),
            addr & 0xff == 0x4a || addr & 0xff == 0x4b,
        ensures
            final(self).wf(),
            spec_wb(*old(self), *final(self), addr, val),
    {
        if addr & 0xff == 0x4a {
            self.wy = val;
        } else {
            self.wx = val;
        }
        proof {
            assert(spec_wb(*old(self), *self, addr, val)) by {
                reveal(spec_wb);
            }
            lemma_cache_ok_views(*old(self), *self);
        }
    }

    /// The bank-select port: accepted only in the extended mode, otherwise
    /// the write is dropped.
    fn wb_bank(&mut self, addr: u16, val: u8)
        requires
            old(self).wf(),
            addr & 0xff == 0x4f,
        ensures
            final(self).wf(),
            spec_wb(*old(self), *final(self), addr, val),
    {
        if self.is_cgb {
            self.vrambank_sel = val & 1;
        }
        proof {
            assert(spec_wb(*old(self), *self, addr, val)) by {
                reveal(spec_wb);
            }
            lemma_cache_ok_views(*old(self), *self);
        }
    }
}

/// The register bank's write relation: how each stored field of the
/// post-write state follows from the pre-write state, the port and the
/// byte written. Kept opaque; `reveal(spec_wb)` opens it where a caller
/// needs a particular port's effect.
#[verifier::opaque]
pub open spec fn spec_wb(pre: Gpu, post: Gpu, addr: u16, val: u8) -> bool {
    &&& post.lcdon == (if addr & 0xff == 0x40 {
        (val >> 7) & 1 != 0
    } else {
        pre.lcdon
    })
    &&& post.winmap == (if addr & 0xff == 0x40 {
        (val >> 6) & 1 != 0
    } else {
        pre.winmap
    })
    &&& post.winon == (if addr & 0xff == 0x40 {
        (val >> 5) & 1 != 0
    } else {
        pre.winon
    })
    &&& post.tiledata == (if addr & 0xff == 0x40 {
        (val >> 4) & 1 != 0
    } else {
        pre.tiledata
    })
    &&& post.bgmap == (if addr & 0xff == 0x40 {
        (val >> 3) & 1 != 0
    } else {
        pre.bgmap
    })
    &&& post.objsize == (if addr & 0xff == 0x40 {
        (val >> 2) & 1 != 0
    } else {
        pre.objsize
    })
    &&& post.objon == (if addr & 0xff == 0x40 {
        (val >> 1) & 1 != 0
    } else {
        pre.objon
    })
    &&& post.bgon == (if addr & 0xff == 0x40 {
        (val >> 0) & 1 != 0
    } else {
        pre.bgon
    })
    &&& post.clock == (if lcd_enable_edge(pre, addr, val) {
        4
    } else {
        pre.clock
    })
    &&& post.ly == (if lcd_enable_edge(pre, addr, val) {
        0
    } else {
        pre.ly
    })
    &&& post.lycly == (if addr & 0xff == 0x41 {
        (val >> 6) & 1 != 0
    } else {
        pre.lycly
    })
    &&& post.mode2int == (if addr & 0xff == 0x41 {
        (val >> 5) & 1 != 0
    } else {
        pre.mode2int
    })
    &&& post.mode1int == (if addr & 0xff == 0x41 {
        (val >> 4) & 1 != 0
    } else {
        pre.mode1int
    })
    &&& post.mode0int == (if addr & 0xff == 0x41 {
        (val >> 3) & 1 != 0
    } else {
        pre.mode0int
    })
    &&& post.scy == (if addr & 0xff == 0x42 {
        val
    } else {
        pre.scy
    })
    &&& post.scx == (if addr & 0xff == 0x43 {
        val
    } else {
        pre.scx
    })
    &&& post.lyc == (if addr & 0xff == 0x45 {
        val
    } else {
        pre.lyc
    })
    &&& post.bgp == (if addr & 0xff == 0x47 {
        val
    } else {
        pre.bgp
    })
    &&& post.obp0 == (if addr & 0xff == 0x48 {
        val
    } else {
        pre.obp0
    })
    &&& post.obp1 == (if addr & 0xff == 0x49 {
        val
    } else {
        pre.obp1
    })
    &&& post.wy == (if addr & 0xff == 0x4a {
        val
    } else {
        pre.wy
    })
    &&& post.wx == (if addr & 0xff == 0x4b {
        val
    } else {
        pre.wx
    })
    &&& post.vrambank_sel == (if addr & 0xff == 0x4f && pre.is_cgb {
        val & 1
    } else {
        pre.vrambank_sel
    })
    &&& (if addr & 0xff == 0x47 {
        pal_compiled(post.pal.bg@, pre.base@, val)
    } else {
        post.pal.bg == pre.pal.bg
    })
    &&& (if addr & 0xff == 0x48 {
        pal_compiled(post.pal.obp0@, pre.base@, val)
    } else {
        post.pal.obp0 == pre.pal.obp0
    })
    &&& (if addr & 0xff == 0x49 {
        pal_compiled(post.pal.obp1@, pre.base@, val)
    } else {
        post.pal.obp1 == pre.pal.obp1
    })
    &&& post.vrambank == pre.vrambank
    &&& post.oam == pre.oam
    &&& post.image_data == pre.image_data
    &&& post.tiles == pre.tiles
    &&& post.base == pre.base
    &&& post.is_cgb == pre.is_cgb
    &&& post.is_sgb == pre.is_sgb
    &&& post.mode == pre.mode
}

} // verus!
