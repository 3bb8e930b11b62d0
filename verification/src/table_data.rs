//! The canonical lookup-table data, given once as specification functions
//! and once as executable literals proved equal to them.
//!
//! Each configuration's triangle row is a 16-entry, sentinel-padded
//! sequence; [`canonical_row`] dispatches to one block function per 16
//! configurations so that any single row evaluates cheaply.  The per-block
//! lemmas establish, configuration by configuration, that every row is
//! well-formed and that the edge mask vanishes exactly where the row is
//! empty - at the two homogeneous configurations 0 and 255.

use vstd::prelude::*;

use crate::tables::prefix_ok;

verus! {

/// Edge masks of configurations 0 to 15.
pub open spec fn canonical_masks_block_0(c: int) -> u32 {
    if c == 0 {
        0x000
    } else if c == 1 {
        0x109
    } else if c == 2 {
        0x203
    } else if c == 3 {
        0x30a
    } else if c == 4 {
        0x406
    } else if c == 5 {
        0x50f
    } else if c == 6 {
        0x605
    } else if c == 7 {
        0x70c
    } else if c == 8 {
        0x80c
    } else if c == 9 {
        0x905
    } else if c == 10 {
        0xa0f
    } else if c == 11 {
        0xb06
    } else if c == 12 {
        0xc0a
    } else if c == 13 {
        0xd03
    } else if c == 14 {
        0xe09
    } else {
        0xf00
    }
}

/// Edge masks of configurations 16 to 31.
pub open spec fn canonical_masks_block_1(c: int) -> u32 {
    if c == 16 {
        0x190
    } else if c == 17 {
        0x099
    } else if c == 18 {
        0x393
    } else if c == 19 {
        0x29a
    } else if c == 20 {
        0x596
    } else if c == 21 {
        0x49f
    } else if c == 22 {
        0x795
    } else if c == 23 {
        0x69c
    } else if c == 24 {
        0x99c
    } else if c == 25 {
        0x895
    } else if c == 26 {
        0xb9f
    } else if c == 27 {
        0xa96
    } else if c == 28 {
        0xd9a
    } else if c == 29 {
        0xc93
    } else if c == 30 {
        0xf99
    } else {
        0xe90
    }
}

/// Edge masks of configurations 32 to 47.
pub open spec fn canonical_masks_block_2(c: int) -> u32 {
    if c == 32 {
        0x230
    } else if c == 33 {
        0x339
    } else if c == 34 {
        0x033
    } else if c == 35 {
        0x13a
    } else if c == 36 {
        0x636
    } else if c == 37 {
        0x73f
    } else if c == 38 {
        0x435
    } else if c == 39 {
        0x53c
    } else if c == 40 {
        0xa3c
    } else if c == 41 {
        0xb35
    } else if c == 42 {
        0x83f
    } else if c == 43 {
        0x936
    } else if c == 44 {
        0xe3a
    } else if c == 45 {
        0xf33
    } else if c == 46 {
        0xc39
    } else {
        0xd30
    }
}

/// Edge masks of configurations 48 to 63.
pub open spec fn canonical_masks_block_3(c: int) -> u32 {
    if c == 48 {
        0x3a0
    } else if c == 49 {
        0x2a9
    } else if c == 50 {
        0x1a3
    } else if c == 51 {
        0x0aa
    } else if c == 52 {
        0x7a6
    } else if c == 53 {
        0x6af
    } else if c == 54 {
        0x5a5
    } else if c == 55 {
        0x4ac
    } else if c == 56 {
        0xbac
    } else if c == 57 {
        0xaa5
    } else if c == 58 {
        0x9af
    } else if c == 59 {
        0x8a6
    } else if c == 60 {
        0xfaa
    } else if c == 61 {
        0xea3
    } else if c == 62 {
        0xda9
    } else {
        0xca0
    }
}

/// Edge masks of configurations 64 to 79.
pub open spec fn canonical_masks_block_4(c: int) -> u32 {
    if c == 64 {
        0x460
    } else if c == 65 {
        0x569
    } else if c == 66 {
        0x663
    } else if c == 67 {
        0x76a
    } else if c == 68 {
        0x066
    } else if c == 69 {
        0x16f
    } else if c == 70 {
        0x265
    } else if c == 71 {
        0x36c
    } else if c == 72 {
        0xc6c
    } else if c == 73 {
        0xd65
    } else if c == 74 {
        0xe6f
    } else if c == 75 {
        0xf66
    } else if c == 76 {
        0x86a
    } else if c == 77 {
        0x963
    } else if c == 78 {
        0xa69
    } else {
        0xb60
    }
}

/// Edge masks of configurations 80 to 95.
pub open spec fn canonical_masks_block_5(c: int) -> u32 {
    if c == 80 {
        0x5f0
    } else if c == 81 {
        0x4f9
    } else if c == 82 {
        0x7f3
    } else if c == 83 {
        0x6fa
    } else if c == 84 {
        0x1f6
    } else if c == 85 {
        0x0ff
    } else if c == 86 {
        0x3f5
    } else if c == 87 {
        0x2fc
    } else if c == 88 {
        0xdfc
    } else if c == 89 {
        0xcf5
    } else if c == 90 {
        0xfff
    } else if c == 91 {
        0xef6
    } else if c == 92 {
        0x9fa
    } else if c == 93 {
        0x8f3
    } else if c == 94 {
        0xbf9
    } else {
        0xaf0
    }
}

/// Edge masks of configurations 96 to 111.
pub open spec fn canonical_masks_block_6(c: int) -> u32 {
    if c == 96 {
        0x650
    } else if c == 97 {
        0x759
    } else if c == 98 {
        0x453
    } else if c == 99 {
        0x55a
    } else if c == 100 {
        0x256
    } else if c == 101 {
        0x35f
    } else if c == 102 {
        0x055
    } else if c == 103 {
        0x15c
    } else if c == 104 {
        0xe5c
    } else if c == 105 {
        0xf55
    } else if c == 106 {
        0xc5f
    } else if c == 107 {
        0xd56
    } else if c == 108 {
        0xa5a
    } else if c == 109 {
        0xb53
    } else if c == 110 {
        0x859
    } else {
        0x950
    }
}

/// Edge masks of configurations 112 to 127.
pub open spec fn canonical_masks_block_7(c: int) -> u32 {
    if c == 112 {
        0x7c0
    } else if c == 113 {
        0x6c9
    } else if c == 114 {
        0x5c3
    } else if c == 115 {
        0x4ca
    } else if c == 116 {
        0x3c6
    } else if c == 117 {
        0x2cf
    } else if c == 118 {
        0x1c5
    } else if c == 119 {
        0x0cc
    } else if c == 120 {
        0xfcc
    } else if c == 121 {
        0xec5
    } else if c == 122 {
        0xdcf
    } else if c == 123 {
        0xcc6
    } else if c == 124 {
        0xbca
    } else if c == 125 {
        0xac3
    } else if c == 126 {
        0x9c9
    } else {
        0x8c0
    }
}

/// Edge masks of configurations 128 to 143.
pub open spec fn canonical_masks_block_8(c: int) -> u32 {
    if c == 128 {
        0x8c0
    } else if c == 129 {
        0x9c9
    } else if c == 130 {
        0xac3
    } else if c == 131 {
        0xbca
    } else if c == 132 {
        0xcc6
    } else if c == 133 {
        0xdcf
    } else if c == 134 {
        0xec5
    } else if c == 135 {
        0xfcc
    } else if c == 136 {
        0x0cc
    } else if c == 137 {
        0x1c5
    } else if c == 138 {
        0x2cf
    } else if c == 139 {
        0x3c6
    } else if c == 140 {
        0x4ca
    } else if c == 141 {
        0x5c3
    } else if c == 142 {
        0x6c9
    } else {
        0x7c0
    }
}

/// Edge masks of configurations 144 to 159.
pub open spec fn canonical_masks_block_9(c: int) -> u32 {
    if c == 144 {
        0x950
    } else if c == 145 {
        0x859
    } else if c == 146 {
        0xb53
    } else if c == 147 {
        0xa5a
    } else if c == 148 {
        0xd56
    } else if c == 149 {
        0xc5f
    } else if c == 150 {
        0xf55
    } else if c == 151 {
        0xe5c
    } else if c == 152 {
        0x15c
    } else if c == 153 {
        0x055
    } else if c == 154 {
        0x35f
    } else if c == 155 {
        0x256
    } else if c == 156 {
        0x55a
    } else if c == 157 {
        0x453
    } else if c == 158 {
        0x759
    } else {
        0x650
    }
}

/// Edge masks of configurations 160 to 175.
pub open spec fn canonical_masks_block_10(c: int) -> u32 {
    if c == 160 {
        0xaf0
    } else if c == 161 {
        0xbf9
    } else if c == 162 {
        0x8f3
    } else if c == 163 {
        0x9fa
    } else if c == 164 {
        0xef6
    } else if c == 165 {
        0xfff
    } else if c == 166 {
        0xcf5
    } else if c == 167 {
        0xdfc
    } else if c == 168 {
        0x2fc
    } else if c == 169 {
        0x3f5
    } else if c == 170 {
        0x0ff
    } else if c == 171 {
        0x1f6
    } else if c == 172 {
        0x6fa
    } else if c == 173 {
        0x7f3
    } else if c == 174 {
        0x4f9
    } else {
        0x5f0
    }
}

/// Edge masks of configurations 176 to 191.
pub open spec fn canonical_masks_block_11(c: int) -> u32 {
    if c == 176 {
        0xb60
    } else if c == 177 {
        0xa69
    } else if c == 178 {
        0x963
    } else if c == 179 {
        0x86a
    } else if c == 180 {
        0xf66
    } else if c == 181 {
        0xe6f
    } else if c == 182 {
        0xd65
    } else if c == 183 {
        0xc6c
    } else if c == 184 {
        0x36c
    } else if c == 185 {
        0x265
    } else if c == 186 {
        0x16f
    } else if c == 187 {
        0x066
    } else if c == 188 {
        0x76a
    } else if c == 189 {
        0x663
    } else if c == 190 {
        0x569
    } else {
        0x460
    }
}

/// Edge masks of configurations 192 to 207.
pub open spec fn canonical_masks_block_12(c: int) -> u32 {
    if c == 192 {
        0xca0
    } else if c == 193 {
        0xda9
    } else if c == 194 {
        0xea3
    } else if c == 195 {
        0xfaa
    } else if c == 196 {
        0x8a6
    } else if c == 197 {
        0x9af
    } else if c == 198 {
        0xaa5
    } else if c == 199 {
        0xbac
    } else if c == 200 {
        0x4ac
    } else if c == 201 {
        0x5a5
    } else if c == 202 {
        0x6af
    } else if c == 203 {
        0x7a6
    } else if c == 204 {
        0x0aa
    } else if c == 205 {
        0x1a3
    } else if c == 206 {
        0x2a9
    } else {
        0x3a0
    }
}

/// Edge masks of configurations 208 to 223.
pub open spec fn canonical_masks_block_13(c: int) -> u32 {
    if c == 208 {
        0xd30
    } else if c == 209 {
        0xc39
    } else if c == 210 {
        0xf33
    } else if c == 211 {
        0xe3a
    } else if c == 212 {
        0x936
    } else if c == 213 {
        0x83f
    } else if c == 214 {
        0xb35
    } else if c == 215 {
        0xa3c
    } else if c == 216 {
        0x53c
    } else if c == 217 {
        0x435
    } else if c == 218 {
        0x73f
    } else if c == 219 {
        0x636
    } else if c == 220 {
        0x13a
    } else if c == 221 {
        0x033
    } else if c == 222 {
        0x339
    } else {
        0x230
    }
}

/// Edge masks of configurations 224 to 239.
pub open spec fn canonical_masks_block_14(c: int) -> u32 {
    if c == 224 {
        0xe90
    } else if c == 225 {
        0xf99
    } else if c == 226 {
        0xc93
    } else if c == 227 {
        0xd9a
    } else if c == 228 {
        0xa96
    } else if c == 229 {
        0xb9f
    } else if c == 230 {
        0x895
    } else if c == 231 {
        0x99c
    } else if c == 232 {
        0x69c
    } else if c == 233 {
        0x795
    } else if c == 234 {
        0x49f
    } else if c == 235 {
        0x596
    } else if c == 236 {
        0x29a
    } else if c == 237 {
        0x393
    } else if c == 238 {
        0x099
    } else {
        0x190
    }
}

/// Edge masks of configurations 240 to 255.
pub open spec fn canonical_masks_block_15(c: int) -> u32 {
    if c == 240 {
        0xf00
    } else if c == 241 {
        0xe09
    } else if c == 242 {
        0xd03
    } else if c == 243 {
        0xc0a
    } else if c == 244 {
        0xb06
    } else if c == 245 {
        0xa0f
    } else if c == 246 {
        0x905
    } else if c == 247 {
        0x80c
    } else if c == 248 {
        0x70c
    } else if c == 249 {
        0x605
    } else if c == 250 {
        0x50f
    } else if c == 251 {
        0x406
    } else if c == 252 {
        0x30a
    } else if c == 253 {
        0x203
    } else if c == 254 {
        0x109
    } else {
        0x000
    }
}

/// The canonical edge mask of configuration `c`: bit `e` is set iff the
/// surface crosses edge `e` of a voxel with that configuration.
pub open spec fn canonical_mask(c: int) -> u32 {
    if c < 16 {
        canonical_masks_block_0(c)
    }     else if c < 32 {
        canonical_masks_block_1(c)
    }     else if c < 48 {
        canonical_masks_block_2(c)
    }     else if c < 64 {
        canonical_masks_block_3(c)
    }     else if c < 80 {
        canonical_masks_block_4(c)
    }     else if c < 96 {
        canonical_masks_block_5(c)
    }     else if c < 112 {
        canonical_masks_block_6(c)
    }     else if c < 128 {
        canonical_masks_block_7(c)
    }     else if c < 144 {
        canonical_masks_block_8(c)
    }     else if c < 160 {
        canonical_masks_block_9(c)
    }     else if c < 176 {
        canonical_masks_block_10(c)
    }     else if c < 192 {
        canonical_masks_block_11(c)
    }     else if c < 208 {
        canonical_masks_block_12(c)
    }     else if c < 224 {
        canonical_masks_block_13(c)
    }     else if c < 240 {
        canonical_masks_block_14(c)
    } else {
        canonical_masks_block_15(c)
    }
}

/// Triangle rows of configurations 0 to 15.
pub open spec fn canonical_rows_block_0(c: int) -> Seq<i8> {
    if c == 0 {
        seq![-1i8, -1i8, -1i8, -1i8, -1i8, -1i8, -1i8, -1i8, -1i8, -1i8, -1i8, -1i8, -1i8, -1i8, -1i8, -1i8]
    } else if c == 1 {
        seq![0i8, 3, 8, -1i8, -1i8, -1i8, -1i8, -1i8, -1i8, -1i8, -1i8, -1i8, -1i8, -1i8, -1i8, -1i8]
    } else if c == 2 {
        seq![0i8, 9, 1, -1i8, -1i8, -1i8, -1i8, -1i8, -1i8, -1i8, -1i8, -1i8, -1i8, -1i8, -1i8, -1i8]
    } else if c == 3 {
        seq![3i8, 8, 1, 1, 8, 9, -1i8, -1i8, -1i8, -1i8, -1i8, -1i8, -1i8, -1i8, -1i8, -1i8]
    } else if c == 4 {
        seq![2i8, 11, 3, -1i8, -1i8, -1i8, -1i8, -1i8, -1i8, -1i8, -1i8, -1i8, -1i8, -1i8, -1i8, -1i8]
    } else if c == 5 {
        seq![8i8, 0, 11, 11, 0, 2, -1i8, -1i8, -1i8, -1i8, -1i8, -1i8, -1i8, -1i8, -1i8, -1i8]
    } else if c == 6 {
        seq![3i8, 2, 11, 1, 0, 9, -1i8, -1i8, -1i8, -1i8, -1i8, -1i8, -1i8, -1i8, -1i8, -1i8]
    } else if c == 7 {
        seq![11i8, 1, 2, 11, 9, 1, 11, 8, 9, -1i8, -1i8, -1i8, -1i8, -1i8, -1i8, -1i8]
    } else if c == 8 {
        seq![1i8, 10, 2, -1i8, -1i8, -1i8, -1i8, -1i8, -1i8, -1i8, -1i8, -1i8, -1i8, -1i8, -1i8, -1i8]
    } else if c == 9 {
        seq![0i8, 3, 8, 2, 1, 10, -1i8, -1i8, -1i8, -1i8, -1i8, -1i8, -1i8, -1i8, -1i8, -1i8]
    } else if c == 10 {
        seq![10i8, 2, 9, 9, 2, 0, -1i8, -1i8, -1i8, -1i8, -1i8, -1i8, -1i8, -1i8, -1i8, -1i8]
    } else if c == 11 {
        seq![8i8, 2, 3, 8, 10, 2, 8, 9, 10, -1i8, -1i8, -1i8, -1i8, -1i8, -1i8, -1i8]
    } else if c == 12 {
        seq![11i8, 3, 10, 10, 3, 1, -1i8, -1i8, -1i8, -1i8, -1i8, -1i8, -1i8, -1i8, -1i8, -1i8]
    } else if c == 13 {
        seq![10i8, 0, 1, 10, 8, 0, 10, 11, 8, -1i8, -1i8, -1i8, -1i8, -1i8, -1i8, -1i8]
    } else if c == 14 {
        seq![9i8, 3, 0, 9, 11, 3, 9, 10, 11, -1i8, -1i8, -1i8, -1i8, -1i8, -1i8, -1i8]
    } else {
        seq![8i8, 9, 11, 11, 9, 10, -1i8, -1i8, -1i8, -1i8, -1i8, -1i8, -1i8, -1i8, -1i8, -1i8]
    }
}

/// Triangle rows of configurations 16 to 31.
pub open spec fn canonical_rows_block_1(c: int) -> Seq<i8> {
    if c == 16 {
        seq![4i8, 8, 7, -1i8, -1i8, -1i8, -1i8, -1i8, -1i8, -1i8, -1i8, -1i8, -1i8, -1i8, -1i8, -1i8]
    } else if c == 17 {
        seq![7i8, 4, 3, 3, 4, 0, -1i8, -1i8, -1i8, -1i8, -1i8, -1i8, -1i8, -1i8, -1i8, -1i8]
    } else if c == 18 {
        seq![4i8, 8, 7, 0, 9, 1, -1i8, -1i8, -1i8, -1i8, -1i8, -1i8, -1i8, -1i8, -1i8, -1i8]
    } else if c == 19 {
        seq![1i8, 4, 9, 1, 7, 4, 1, 3, 7, -1i8, -1i8, -1i8, -1i8, -1i8, -1i8, -1i8]
    } else if c == 20 {
        seq![8i8, 7, 4, 11, 3, 2, -1i8, -1i8, -1i8, -1i8, -1i8, -1i8, -1i8, -1i8, -1i8, -1i8]
    } else if c == 21 {
        seq![4i8, 11, 7, 4, 2, 11, 4, 0, 2, -1i8, -1i8, -1i8, -1i8, -1i8, -1i8, -1i8]
    } else if c == 22 {
        seq![0i8, 9, 1, 8, 7, 4, 11, 3, 2, -1i8, -1i8, -1i8, -1i8, -1i8, -1i8, -1i8]
    } else if c == 23 {
        seq![7i8, 4, 11, 11, 4, 2, 2, 4, 9, 2, 9, 1, -1i8, -1i8, -1i8, -1i8]
    } else if c == 24 {
        seq![4i8, 8, 7, 2, 1, 10, -1i8, -1i8, -1i8, -1i8, -1i8, -1i8, -1i8, -1i8, -1i8, -1i8]
    } else if c == 25 {
        seq![7i8, 4, 3, 3, 4, 0, 10, 2, 1, -1i8, -1i8, -1i8, -1i8, -1i8, -1i8, -1i8]
    } else if c == 26 {
        seq![10i8, 2, 9, 9, 2, 0, 7, 4, 8, -1i8, -1i8, -1i8, -1i8, -1i8, -1i8, -1i8]
    } else if c == 27 {
        seq![10i8, 2, 3, 10, 3, 4, 3, 7, 4, 9, 10, 4, -1i8, -1i8, -1i8, -1i8]
    } else if c == 28 {
        seq![1i8, 10, 3, 3, 10, 11, 4, 8, 7, -1i8, -1i8, -1i8, -1i8, -1i8, -1i8, -1i8]
    } else if c == 29 {
        seq![10i8, 11, 1, 11, 7, 4, 1, 11, 4, 1, 4, 0, -1i8, -1i8, -1i8, -1i8]
    } else if c == 30 {
        seq![7i8, 4, 8, 9, 3, 0, 9, 11, 3, 9, 10, 11, -1i8, -1i8, -1i8, -1i8]
    } else {
        seq![7i8, 4, 11, 4, 9, 11, 9, 10, 11, -1i8, -1i8, -1i8, -1i8, -1i8, -1i8, -1i8]
    }
}

/// Triangle rows of configurations 32 to 47.
pub open spec fn canonical_rows_block_2(c: int) -> Seq<i8> {
    if c == 32 {
        seq![9i8, 4, 5, -1i8, -1i8, -1i8, -1i8, -1i8, -1i8, -1i8, -1i8, -1i8, -1i8, -1i8, -1i8, -1i8]
    } else if c == 33 {
        seq![9i8, 4, 5, 8, 0, 3, -1i8, -1i8, -1i8, -1i8, -1i8, -1i8, -1i8, -1i8, -1i8, -1i8]
    } else if c == 34 {
        seq![4i8, 5, 0, 0, 5, 1, -1i8, -1i8, -1i8, -1i8, -1i8, -1i8, -1i8, -1i8, -1i8, -1i8]
    } else if c == 35 {
        seq![5i8, 8, 4, 5, 3, 8, 5, 1, 3, -1i8, -1i8, -1i8, -1i8, -1i8, -1i8, -1i8]
    } else if c == 36 {
        seq![9i8, 4, 5, 11, 3, 2, -1i8, -1i8, -1i8, -1i8, -1i8, -1i8, -1i8, -1i8, -1i8, -1i8]
    } else if c == 37 {
        seq![2i8, 11, 0, 0, 11, 8, 5, 9, 4, -1i8, -1i8, -1i8, -1i8, -1i8, -1i8, -1i8]
    } else if c == 38 {
        seq![4i8, 5, 0, 0, 5, 1, 11, 3, 2, -1i8, -1i8, -1i8, -1i8, -1i8, -1i8, -1i8]
    } else if c == 39 {
        seq![5i8, 1, 4, 1, 2, 11, 4, 1, 11, 4, 11, 8, -1i8, -1i8, -1i8, -1i8]
    } else if c == 40 {
        seq![1i8, 10, 2, 5, 9, 4, -1i8, -1i8, -1i8, -1i8, -1i8, -1i8, -1i8, -1i8, -1i8, -1i8]
    } else if c == 41 {
        seq![9i8, 4, 5, 0, 3, 8, 2, 1, 10, -1i8, -1i8, -1i8, -1i8, -1i8, -1i8, -1i8]
    } else if c == 42 {
        seq![2i8, 5, 10, 2, 4, 5, 2, 0, 4, -1i8, -1i8, -1i8, -1i8, -1i8, -1i8, -1i8]
    } else if c == 43 {
        seq![10i8, 2, 5, 5, 2, 4, 4, 2, 3, 4, 3, 8, -1i8, -1i8, -1i8, -1i8]
    } else if c == 44 {
        seq![11i8, 3, 10, 10, 3, 1, 4, 5, 9, -1i8, -1i8, -1i8, -1i8, -1i8, -1i8, -1i8]
    } else if c == 45 {
        seq![4i8, 5, 9, 10, 0, 1, 10, 8, 0, 10, 11, 8, -1i8, -1i8, -1i8, -1i8]
    } else if c == 46 {
        seq![11i8, 3, 0, 11, 0, 5, 0, 4, 5, 10, 11, 5, -1i8, -1i8, -1i8, -1i8]
    } else {
        seq![4i8, 5, 8, 5, 10, 8, 10, 11, 8, -1i8, -1i8, -1i8, -1i8, -1i8, -1i8, -1i8]
    }
}

/// Triangle rows of configurations 48 to 63.
pub open spec fn canonical_rows_block_3(c: int) -> Seq<i8> {
    if c == 48 {
        seq![8i8, 7, 9, 9, 7, 5, -1i8, -1i8, -1i8, -1i8, -1i8, -1i8, -1i8, -1i8, -1i8, -1i8]
    } else if c == 49 {
        seq![3i8, 9, 0, 3, 5, 9, 3, 7, 5, -1i8, -1i8, -1i8, -1i8, -1i8, -1i8, -1i8]
    } else if c == 50 {
        seq![7i8, 0, 8, 7, 1, 0, 7, 5, 1, -1i8, -1i8, -1i8, -1i8, -1i8, -1i8, -1i8]
    } else if c == 51 {
        seq![7i8, 5, 3, 3, 5, 1, -1i8, -1i8, -1i8, -1i8, -1i8, -1i8, -1i8, -1i8, -1i8, -1i8]
    } else if c == 52 {
        seq![5i8, 9, 7, 7, 9, 8, 2, 11, 3, -1i8, -1i8, -1i8, -1i8, -1i8, -1i8, -1i8]
    } else if c == 53 {
        seq![2i8, 11, 7, 2, 7, 9, 7, 5, 9, 0, 2, 9, -1i8, -1i8, -1i8, -1i8]
    } else if c == 54 {
        seq![2i8, 11, 3, 7, 0, 8, 7, 1, 0, 7, 5, 1, -1i8, -1i8, -1i8, -1i8]
    } else if c == 55 {
        seq![2i8, 11, 1, 11, 7, 1, 7, 5, 1, -1i8, -1i8, -1i8, -1i8, -1i8, -1i8, -1i8]
    } else if c == 56 {
        seq![8i8, 7, 9, 9, 7, 5, 2, 1, 10, -1i8, -1i8, -1i8, -1i8, -1i8, -1i8, -1i8]
    } else if c == 57 {
        seq![10i8, 2, 1, 3, 9, 0, 3, 5, 9, 3, 7, 5, -1i8, -1i8, -1i8, -1i8]
    } else if c == 58 {
        seq![7i8, 5, 8, 5, 10, 2, 8, 5, 2, 8, 2, 0, -1i8, -1i8, -1i8, -1i8]
    } else if c == 59 {
        seq![10i8, 2, 5, 2, 3, 5, 3, 7, 5, -1i8, -1i8, -1i8, -1i8, -1i8, -1i8, -1i8]
    } else if c == 60 {
        seq![8i8, 7, 5, 8, 5, 9, 11, 3, 10, 3, 1, 10, -1i8, -1i8, -1i8, -1i8]
    } else if c == 61 {
        seq![5i8, 11, 7, 10, 11, 5, 1, 9, 0, -1i8, -1i8, -1i8, -1i8, -1i8, -1i8, -1i8]
    } else if c == 62 {
        seq![11i8, 5, 10, 7, 5, 11, 8, 3, 0, -1i8, -1i8, -1i8, -1i8, -1i8, -1i8, -1i8]
    } else {
        seq![5i8, 11, 7, 10, 11, 5, -1i8, -1i8, -1i8, -1i8, -1i8, -1i8, -1i8, -1i8, -1i8, -1i8]
    }
}

/// Triangle rows of configurations 64 to 79.
pub open spec fn canonical_rows_block_4(c: int) -> Seq<i8> {
    if c == 64 {
        seq![6i8, 7, 11, -1i8, -1i8, -1i8, -1i8, -1i8, -1i8, -1i8, -1i8, -1i8, -1i8, -1i8, -1i8, -1i8]
    } else if c == 65 {
        seq![7i8, 11, 6, 3, 8, 0, -1i8, -1i8, -1i8, -1i8, -1i8, -1i8, -1i8, -1i8, -1i8, -1i8]
    } else if c == 66 {
        seq![6i8, 7, 11, 0, 9, 1, -1i8, -1i8, -1i8, -1i8, -1i8, -1i8, -1i8, -1i8, -1i8, -1i8]
    } else if c == 67 {
        seq![9i8, 1, 8, 8, 1, 3, 6, 7, 11, -1i8, -1i8, -1i8, -1i8, -1i8, -1i8, -1i8]
    } else if c == 68 {
        seq![3i8, 2, 7, 7, 2, 6, -1i8, -1i8, -1i8, -1i8, -1i8, -1i8, -1i8, -1i8, -1i8, -1i8]
    } else if c == 69 {
        seq![0i8, 7, 8, 0, 6, 7, 0, 2, 6, -1i8, -1i8, -1i8, -1i8, -1i8, -1i8, -1i8]
    } else if c == 70 {
        seq![6i8, 7, 2, 2, 7, 3, 9, 1, 0, -1i8, -1i8, -1i8, -1i8, -1i8, -1i8, -1i8]
    } else if c == 71 {
        seq![6i8, 7, 8, 6, 8, 1, 8, 9, 1, 2, 6, 1, -1i8, -1i8, -1i8, -1i8]
    } else if c == 72 {
        seq![11i8, 6, 7, 10, 2, 1, -1i8, -1i8, -1i8, -1i8, -1i8, -1i8, -1i8, -1i8, -1i8, -1i8]
    } else if c == 73 {
        seq![3i8, 8, 0, 11, 6, 7, 10, 2, 1, -1i8, -1i8, -1i8, -1i8, -1i8, -1i8, -1i8]
    } else if c == 74 {
        seq![0i8, 9, 2, 2, 9, 10, 7, 11, 6, -1i8, -1i8, -1i8, -1i8, -1i8, -1i8, -1i8]
    } else if c == 75 {
        seq![6i8, 7, 11, 8, 2, 3, 8, 10, 2, 8, 9, 10, -1i8, -1i8, -1i8, -1i8]
    } else if c == 76 {
        seq![7i8, 10, 6, 7, 1, 10, 7, 3, 1, -1i8, -1i8, -1i8, -1i8, -1i8, -1i8, -1i8]
    } else if c == 77 {
        seq![8i8, 0, 7, 7, 0, 6, 6, 0, 1, 6, 1, 10, -1i8, -1i8, -1i8, -1i8]
    } else if c == 78 {
        seq![7i8, 3, 6, 3, 0, 9, 6, 3, 9, 6, 9, 10, -1i8, -1i8, -1i8, -1i8]
    } else {
        seq![6i8, 7, 10, 7, 8, 10, 8, 9, 10, -1i8, -1i8, -1i8, -1i8, -1i8, -1i8, -1i8]
    }
}

/// Triangle rows of configurations 80 to 95.
pub open spec fn canonical_rows_block_5(c: int) -> Seq<i8> {
    if c == 80 {
        seq![11i8, 6, 8, 8, 6, 4, -1i8, -1i8, -1i8, -1i8, -1i8, -1i8, -1i8, -1i8, -1i8, -1i8]
    } else if c == 81 {
        seq![6i8, 3, 11, 6, 0, 3, 6, 4, 0, -1i8, -1i8, -1i8, -1i8, -1i8, -1i8, -1i8]
    } else if c == 82 {
        seq![11i8, 6, 8, 8, 6, 4, 1, 0, 9, -1i8, -1i8, -1i8, -1i8, -1i8, -1i8, -1i8]
    } else if c == 83 {
        seq![1i8, 3, 9, 3, 11, 6, 9, 3, 6, 9, 6, 4, -1i8, -1i8, -1i8, -1i8]
    } else if c == 84 {
        seq![2i8, 8, 3, 2, 4, 8, 2, 6, 4, -1i8, -1i8, -1i8, -1i8, -1i8, -1i8, -1i8]
    } else if c == 85 {
        seq![4i8, 0, 6, 6, 0, 2, -1i8, -1i8, -1i8, -1i8, -1i8, -1i8, -1i8, -1i8, -1i8, -1i8]
    } else if c == 86 {
        seq![9i8, 1, 0, 2, 8, 3, 2, 4, 8, 2, 6, 4, -1i8, -1i8, -1i8, -1i8]
    } else if c == 87 {
        seq![9i8, 1, 4, 1, 2, 4, 2, 6, 4, -1i8, -1i8, -1i8, -1i8, -1i8, -1i8, -1i8]
    } else if c == 88 {
        seq![4i8, 8, 6, 6, 8, 11, 1, 10, 2, -1i8, -1i8, -1i8, -1i8, -1i8, -1i8, -1i8]
    } else if c == 89 {
        seq![1i8, 10, 2, 6, 3, 11, 6, 0, 3, 6, 4, 0, -1i8, -1i8, -1i8, -1i8]
    } else if c == 90 {
        seq![11i8, 6, 4, 11, 4, 8, 10, 2, 9, 2, 0, 9, -1i8, -1i8, -1i8, -1i8]
    } else if c == 91 {
        seq![10i8, 4, 9, 6, 4, 10, 11, 2, 3, -1i8, -1i8, -1i8, -1i8, -1i8, -1i8, -1i8]
    } else if c == 92 {
        seq![4i8, 8, 3, 4, 3, 10, 3, 1, 10, 6, 4, 10, -1i8, -1i8, -1i8, -1i8]
    } else if c == 93 {
        seq![1i8, 10, 0, 10, 6, 0, 6, 4, 0, -1i8, -1i8, -1i8, -1i8, -1i8, -1i8, -1i8]
    } else if c == 94 {
        seq![4i8, 10, 6, 9, 10, 4, 0, 8, 3, -1i8, -1i8, -1i8, -1i8, -1i8, -1i8, -1i8]
    } else {
        seq![4i8, 10, 6, 9, 10, 4, -1i8, -1i8, -1i8, -1i8, -1i8, -1i8, -1i8, -1i8, -1i8, -1i8]
    }
}

/// Triangle rows of configurations 96 to 111.
pub open spec fn canonical_rows_block_6(c: int) -> Seq<i8> {
    if c == 96 {
        seq![6i8, 7, 11, 4, 5, 9, -1i8, -1i8, -1i8, -1i8, -1i8, -1i8, -1i8, -1i8, -1i8, -1i8]
    } else if c == 97 {
        seq![4i8, 5, 9, 7, 11, 6, 3, 8, 0, -1i8, -1i8, -1i8, -1i8, -1i8, -1i8, -1i8]
    } else if c == 98 {
        seq![1i8, 0, 5, 5, 0, 4, 11, 6, 7, -1i8, -1i8, -1i8, -1i8, -1i8, -1i8, -1i8]
    } else if c == 99 {
        seq![11i8, 6, 7, 5, 8, 4, 5, 3, 8, 5, 1, 3, -1i8, -1i8, -1i8, -1i8]
    } else if c == 100 {
        seq![3i8, 2, 7, 7, 2, 6, 9, 4, 5, -1i8, -1i8, -1i8, -1i8, -1i8, -1i8, -1i8]
    } else if c == 101 {
        seq![5i8, 9, 4, 0, 7, 8, 0, 6, 7, 0, 2, 6, -1i8, -1i8, -1i8, -1i8]
    } else if c == 102 {
        seq![3i8, 2, 6, 3, 6, 7, 1, 0, 5, 0, 4, 5, -1i8, -1i8, -1i8, -1i8]
    } else if c == 103 {
        seq![6i8, 1, 2, 5, 1, 6, 4, 7, 8, -1i8, -1i8, -1i8, -1i8, -1i8, -1i8, -1i8]
    } else if c == 104 {
        seq![10i8, 2, 1, 6, 7, 11, 4, 5, 9, -1i8, -1i8, -1i8, -1i8, -1i8, -1i8, -1i8]
    } else if c == 105 {
        seq![0i8, 3, 8, 4, 5, 9, 11, 6, 7, 10, 2, 1, -1i8, -1i8, -1i8, -1i8]
    } else if c == 106 {
        seq![7i8, 11, 6, 2, 5, 10, 2, 4, 5, 2, 0, 4, -1i8, -1i8, -1i8, -1i8]
    } else if c == 107 {
        seq![8i8, 4, 7, 5, 10, 6, 3, 11, 2, -1i8, -1i8, -1i8, -1i8, -1i8, -1i8, -1i8]
    } else if c == 108 {
        seq![9i8, 4, 5, 7, 10, 6, 7, 1, 10, 7, 3, 1, -1i8, -1i8, -1i8, -1i8]
    } else if c == 109 {
        seq![10i8, 6, 5, 7, 8, 4, 1, 9, 0, -1i8, -1i8, -1i8, -1i8, -1i8, -1i8, -1i8]
    } else if c == 110 {
        seq![4i8, 3, 0, 7, 3, 4, 6, 5, 10, -1i8, -1i8, -1i8, -1i8, -1i8, -1i8, -1i8]
    } else {
        seq![10i8, 6, 5, 8, 4, 7, -1i8, -1i8, -1i8, -1i8, -1i8, -1i8, -1i8, -1i8, -1i8, -1i8]
    }
}

/// Triangle rows of configurations 112 to 127.
pub open spec fn canonical_rows_block_7(c: int) -> Seq<i8> {
    if c == 112 {
        seq![9i8, 6, 5, 9, 11, 6, 9, 8, 11, -1i8, -1i8, -1i8, -1i8, -1i8, -1i8, -1i8]
    } else if c == 113 {
        seq![11i8, 6, 3, 3, 6, 0, 0, 6, 5, 0, 5, 9, -1i8, -1i8, -1i8, -1i8]
    } else if c == 114 {
        seq![11i8, 6, 5, 11, 5, 0, 5, 1, 0, 8, 11, 0, -1i8, -1i8, -1i8, -1i8]
    } else if c == 115 {
        seq![11i8, 6, 3, 6, 5, 3, 5, 1, 3, -1i8, -1i8, -1i8, -1i8, -1i8, -1i8, -1i8]
    } else if c == 116 {
        seq![9i8, 8, 5, 8, 3, 2, 5, 8, 2, 5, 2, 6, -1i8, -1i8, -1i8, -1i8]
    } else if c == 117 {
        seq![5i8, 9, 6, 9, 0, 6, 0, 2, 6, -1i8, -1i8, -1i8, -1i8, -1i8, -1i8, -1i8]
    } else if c == 118 {
        seq![1i8, 6, 5, 2, 6, 1, 3, 0, 8, -1i8, -1i8, -1i8, -1i8, -1i8, -1i8, -1i8]
    } else if c == 119 {
        seq![1i8, 6, 5, 2, 6, 1, -1i8, -1i8, -1i8, -1i8, -1i8, -1i8, -1i8, -1i8, -1i8, -1i8]
    } else if c == 120 {
        seq![2i8, 1, 10, 9, 6, 5, 9, 11, 6, 9, 8, 11, -1i8, -1i8, -1i8, -1i8]
    } else if c == 121 {
        seq![9i8, 0, 1, 3, 11, 2, 5, 10, 6, -1i8, -1i8, -1i8, -1i8, -1i8, -1i8, -1i8]
    } else if c == 122 {
        seq![11i8, 0, 8, 2, 0, 11, 10, 6, 5, -1i8, -1i8, -1i8, -1i8, -1i8, -1i8, -1i8]
    } else if c == 123 {
        seq![3i8, 11, 2, 5, 10, 6, -1i8, -1i8, -1i8, -1i8, -1i8, -1i8, -1i8, -1i8, -1i8, -1i8]
    } else if c == 124 {
        seq![1i8, 8, 3, 9, 8, 1, 5, 10, 6, -1i8, -1i8, -1i8, -1i8, -1i8, -1i8, -1i8]
    } else if c == 125 {
        seq![6i8, 5, 10, 0, 1, 9, -1i8, -1i8, -1i8, -1i8, -1i8, -1i8, -1i8, -1i8, -1i8, -1i8]
    } else if c == 126 {
        seq![8i8, 3, 0, 5, 10, 6, -1i8, -1i8, -1i8, -1i8, -1i8, -1i8, -1i8, -1i8, -1i8, -1i8]
    } else {
        seq![6i8, 5, 10, -1i8, -1i8, -1i8, -1i8, -1i8, -1i8, -1i8, -1i8, -1i8, -1i8, -1i8, -1i8, -1i8]
    }
}

/// Triangle rows of configurations 128 to 143.
pub open spec fn canonical_rows_block_8(c: int) -> Seq<i8> {
    if c == 128 {
        seq![10i8, 5, 6, -1i8, -1i8, -1i8, -1i8, -1i8, -1i8, -1i8, -1i8, -1i8, -1i8, -1i8, -1i8, -1i8]
    } else if c == 129 {
        seq![0i8, 3, 8, 6, 10, 5, -1i8, -1i8, -1i8, -1i8, -1i8, -1i8, -1i8, -1i8, -1i8, -1i8]
    } else if c == 130 {
        seq![10i8, 5, 6, 9, 1, 0, -1i8, -1i8, -1i8, -1i8, -1i8, -1i8, -1i8, -1i8, -1i8, -1i8]
    } else if c == 131 {
        seq![3i8, 8, 1, 1, 8, 9, 6, 10, 5, -1i8, -1i8, -1i8, -1i8, -1i8, -1i8, -1i8]
    } else if c == 132 {
        seq![2i8, 11, 3, 6, 10, 5, -1i8, -1i8, -1i8, -1i8, -1i8, -1i8, -1i8, -1i8, -1i8, -1i8]
    } else if c == 133 {
        seq![8i8, 0, 11, 11, 0, 2, 5, 6, 10, -1i8, -1i8, -1i8, -1i8, -1i8, -1i8, -1i8]
    } else if c == 134 {
        seq![1i8, 0, 9, 2, 11, 3, 6, 10, 5, -1i8, -1i8, -1i8, -1i8, -1i8, -1i8, -1i8]
    } else if c == 135 {
        seq![5i8, 6, 10, 11, 1, 2, 11, 9, 1, 11, 8, 9, -1i8, -1i8, -1i8, -1i8]
    } else if c == 136 {
        seq![5i8, 6, 1, 1, 6, 2, -1i8, -1i8, -1i8, -1i8, -1i8, -1i8, -1i8, -1i8, -1i8, -1i8]
    } else if c == 137 {
        seq![5i8, 6, 1, 1, 6, 2, 8, 0, 3, -1i8, -1i8, -1i8, -1i8, -1i8, -1i8, -1i8]
    } else if c == 138 {
        seq![6i8, 9, 5, 6, 0, 9, 6, 2, 0, -1i8, -1i8, -1i8, -1i8, -1i8, -1i8, -1i8]
    } else if c == 139 {
        seq![6i8, 2, 5, 2, 3, 8, 5, 2, 8, 5, 8, 9, -1i8, -1i8, -1i8, -1i8]
    } else if c == 140 {
        seq![3i8, 6, 11, 3, 5, 6, 3, 1, 5, -1i8, -1i8, -1i8, -1i8, -1i8, -1i8, -1i8]
    } else if c == 141 {
        seq![8i8, 0, 1, 8, 1, 6, 1, 5, 6, 11, 8, 6, -1i8, -1i8, -1i8, -1i8]
    } else if c == 142 {
        seq![11i8, 3, 6, 6, 3, 5, 5, 3, 0, 5, 0, 9, -1i8, -1i8, -1i8, -1i8]
    } else {
        seq![5i8, 6, 9, 6, 11, 9, 11, 8, 9, -1i8, -1i8, -1i8, -1i8, -1i8, -1i8, -1i8]
    }
}

/// Triangle rows of configurations 144 to 159.
pub open spec fn canonical_rows_block_9(c: int) -> Seq<i8> {
    if c == 144 {
        seq![5i8, 6, 10, 7, 4, 8, -1i8, -1i8, -1i8, -1i8, -1i8, -1i8, -1i8, -1i8, -1i8, -1i8]
    } else if c == 145 {
        seq![0i8, 3, 4, 4, 3, 7, 10, 5, 6, -1i8, -1i8, -1i8, -1i8, -1i8, -1i8, -1i8]
    } else if c == 146 {
        seq![5i8, 6, 10, 4, 8, 7, 0, 9, 1, -1i8, -1i8, -1i8, -1i8, -1i8, -1i8, -1i8]
    } else if c == 147 {
        seq![6i8, 10, 5, 1, 4, 9, 1, 7, 4, 1, 3, 7, -1i8, -1i8, -1i8, -1i8]
    } else if c == 148 {
        seq![7i8, 4, 8, 6, 10, 5, 2, 11, 3, -1i8, -1i8, -1i8, -1i8, -1i8, -1i8, -1i8]
    } else if c == 149 {
        seq![10i8, 5, 6, 4, 11, 7, 4, 2, 11, 4, 0, 2, -1i8, -1i8, -1i8, -1i8]
    } else if c == 150 {
        seq![4i8, 8, 7, 6, 10, 5, 3, 2, 11, 1, 0, 9, -1i8, -1i8, -1i8, -1i8]
    } else if c == 151 {
        seq![1i8, 2, 10, 11, 7, 6, 9, 5, 4, -1i8, -1i8, -1i8, -1i8, -1i8, -1i8, -1i8]
    } else if c == 152 {
        seq![2i8, 1, 6, 6, 1, 5, 8, 7, 4, -1i8, -1i8, -1i8, -1i8, -1i8, -1i8, -1i8]
    } else if c == 153 {
        seq![0i8, 3, 7, 0, 7, 4, 2, 1, 6, 1, 5, 6, -1i8, -1i8, -1i8, -1i8]
    } else if c == 154 {
        seq![8i8, 7, 4, 6, 9, 5, 6, 0, 9, 6, 2, 0, -1i8, -1i8, -1i8, -1i8]
    } else if c == 155 {
        seq![7i8, 2, 3, 6, 2, 7, 5, 4, 9, -1i8, -1i8, -1i8, -1i8, -1i8, -1i8, -1i8]
    } else if c == 156 {
        seq![4i8, 8, 7, 3, 6, 11, 3, 5, 6, 3, 1, 5, -1i8, -1i8, -1i8, -1i8]
    } else if c == 157 {
        seq![5i8, 0, 1, 4, 0, 5, 7, 6, 11, -1i8, -1i8, -1i8, -1i8, -1i8, -1i8, -1i8]
    } else if c == 158 {
        seq![9i8, 5, 4, 6, 11, 7, 0, 8, 3, -1i8, -1i8, -1i8, -1i8, -1i8, -1i8, -1i8]
    } else {
        seq![11i8, 7, 6, 9, 5, 4, -1i8, -1i8, -1i8, -1i8, -1i8, -1i8, -1i8, -1i8, -1i8, -1i8]
    }
}

/// Triangle rows of configurations 160 to 175.
pub open spec fn canonical_rows_block_10(c: int) -> Seq<i8> {
    if c == 160 {
        seq![6i8, 10, 4, 4, 10, 9, -1i8, -1i8, -1i8, -1i8, -1i8, -1i8, -1i8, -1i8, -1i8, -1i8]
    } else if c == 161 {
        seq![6i8, 10, 4, 4, 10, 9, 3, 8, 0, -1i8, -1i8, -1i8, -1i8, -1i8, -1i8, -1i8]
    } else if c == 162 {
        seq![0i8, 10, 1, 0, 6, 10, 0, 4, 6, -1i8, -1i8, -1i8, -1i8, -1i8, -1i8, -1i8]
    } else if c == 163 {
        seq![6i8, 10, 1, 6, 1, 8, 1, 3, 8, 4, 6, 8, -1i8, -1i8, -1i8, -1i8]
    } else if c == 164 {
        seq![9i8, 4, 10, 10, 4, 6, 3, 2, 11, -1i8, -1i8, -1i8, -1i8, -1i8, -1i8, -1i8]
    } else if c == 165 {
        seq![2i8, 11, 8, 2, 8, 0, 6, 10, 4, 10, 9, 4, -1i8, -1i8, -1i8, -1i8]
    } else if c == 166 {
        seq![11i8, 3, 2, 0, 10, 1, 0, 6, 10, 0, 4, 6, -1i8, -1i8, -1i8, -1i8]
    } else if c == 167 {
        seq![6i8, 8, 4, 11, 8, 6, 2, 10, 1, -1i8, -1i8, -1i8, -1i8, -1i8, -1i8, -1i8]
    } else if c == 168 {
        seq![4i8, 1, 9, 4, 2, 1, 4, 6, 2, -1i8, -1i8, -1i8, -1i8, -1i8, -1i8, -1i8]
    } else if c == 169 {
        seq![3i8, 8, 0, 4, 1, 9, 4, 2, 1, 4, 6, 2, -1i8, -1i8, -1i8, -1i8]
    } else if c == 170 {
        seq![6i8, 2, 4, 4, 2, 0, -1i8, -1i8, -1i8, -1i8, -1i8, -1i8, -1i8, -1i8, -1i8, -1i8]
    } else if c == 171 {
        seq![3i8, 8, 2, 8, 4, 2, 4, 6, 2, -1i8, -1i8, -1i8, -1i8, -1i8, -1i8, -1i8]
    } else if c == 172 {
        seq![4i8, 6, 9, 6, 11, 3, 9, 6, 3, 9, 3, 1, -1i8, -1i8, -1i8, -1i8]
    } else if c == 173 {
        seq![8i8, 6, 11, 4, 6, 8, 9, 0, 1, -1i8, -1i8, -1i8, -1i8, -1i8, -1i8, -1i8]
    } else if c == 174 {
        seq![11i8, 3, 6, 3, 0, 6, 0, 4, 6, -1i8, -1i8, -1i8, -1i8, -1i8, -1i8, -1i8]
    } else {
        seq![8i8, 6, 11, 4, 6, 8, -1i8, -1i8, -1i8, -1i8, -1i8, -1i8, -1i8, -1i8, -1i8, -1i8]
    }
}

/// Triangle rows of configurations 176 to 191.
pub open spec fn canonical_rows_block_11(c: int) -> Seq<i8> {
    if c == 176 {
        seq![10i8, 7, 6, 10, 8, 7, 10, 9, 8, -1i8, -1i8, -1i8, -1i8, -1i8, -1i8, -1i8]
    } else if c == 177 {
        seq![3i8, 7, 0, 7, 6, 10, 0, 7, 10, 0, 10, 9, -1i8, -1i8, -1i8, -1i8]
    } else if c == 178 {
        seq![6i8, 10, 7, 7, 10, 8, 8, 10, 1, 8, 1, 0, -1i8, -1i8, -1i8, -1i8]
    } else if c == 179 {
        seq![6i8, 10, 7, 10, 1, 7, 1, 3, 7, -1i8, -1i8, -1i8, -1i8, -1i8, -1i8, -1i8]
    } else if c == 180 {
        seq![3i8, 2, 11, 10, 7, 6, 10, 8, 7, 10, 9, 8, -1i8, -1i8, -1i8, -1i8]
    } else if c == 181 {
        seq![2i8, 9, 0, 10, 9, 2, 6, 11, 7, -1i8, -1i8, -1i8, -1i8, -1i8, -1i8, -1i8]
    } else if c == 182 {
        seq![0i8, 8, 3, 7, 6, 11, 1, 2, 10, -1i8, -1i8, -1i8, -1i8, -1i8, -1i8, -1i8]
    } else if c == 183 {
        seq![7i8, 6, 11, 1, 2, 10, -1i8, -1i8, -1i8, -1i8, -1i8, -1i8, -1i8, -1i8, -1i8, -1i8]
    } else if c == 184 {
        seq![2i8, 1, 9, 2, 9, 7, 9, 8, 7, 6, 2, 7, -1i8, -1i8, -1i8, -1i8]
    } else if c == 185 {
        seq![2i8, 7, 6, 3, 7, 2, 0, 1, 9, -1i8, -1i8, -1i8, -1i8, -1i8, -1i8, -1i8]
    } else if c == 186 {
        seq![8i8, 7, 0, 7, 6, 0, 6, 2, 0, -1i8, -1i8, -1i8, -1i8, -1i8, -1i8, -1i8]
    } else if c == 187 {
        seq![7i8, 2, 3, 6, 2, 7, -1i8, -1i8, -1i8, -1i8, -1i8, -1i8, -1i8, -1i8, -1i8, -1i8]
    } else if c == 188 {
        seq![8i8, 1, 9, 3, 1, 8, 11, 7, 6, -1i8, -1i8, -1i8, -1i8, -1i8, -1i8, -1i8]
    } else if c == 189 {
        seq![11i8, 7, 6, 1, 9, 0, -1i8, -1i8, -1i8, -1i8, -1i8, -1i8, -1i8, -1i8, -1i8, -1i8]
    } else if c == 190 {
        seq![6i8, 11, 7, 0, 8, 3, -1i8, -1i8, -1i8, -1i8, -1i8, -1i8, -1i8, -1i8, -1i8, -1i8]
    } else {
        seq![11i8, 7, 6, -1i8, -1i8, -1i8, -1i8, -1i8, -1i8, -1i8, -1i8, -1i8, -1i8, -1i8, -1i8, -1i8]
    }
}

/// Triangle rows of configurations 192 to 207.
pub open spec fn canonical_rows_block_12(c: int) -> Seq<i8> {
    if c == 192 {
        seq![7i8, 11, 5, 5, 11, 10, -1i8, -1i8, -1i8, -1i8, -1i8, -1i8, -1i8, -1i8, -1i8, -1i8]
    } else if c == 193 {
        seq![10i8, 5, 11, 11, 5, 7, 0, 3, 8, -1i8, -1i8, -1i8, -1i8, -1i8, -1i8, -1i8]
    } else if c == 194 {
        seq![7i8, 11, 5, 5, 11, 10, 0, 9, 1, -1i8, -1i8, -1i8, -1i8, -1i8, -1i8, -1i8]
    } else if c == 195 {
        seq![7i8, 11, 10, 7, 10, 5, 3, 8, 1, 8, 9, 1, -1i8, -1i8, -1i8, -1i8]
    } else if c == 196 {
        seq![5i8, 2, 10, 5, 3, 2, 5, 7, 3, -1i8, -1i8, -1i8, -1i8, -1i8, -1i8, -1i8]
    } else if c == 197 {
        seq![5i8, 7, 10, 7, 8, 0, 10, 7, 0, 10, 0, 2, -1i8, -1i8, -1i8, -1i8]
    } else if c == 198 {
        seq![0i8, 9, 1, 5, 2, 10, 5, 3, 2, 5, 7, 3, -1i8, -1i8, -1i8, -1i8]
    } else if c == 199 {
        seq![9i8, 7, 8, 5, 7, 9, 10, 1, 2, -1i8, -1i8, -1i8, -1i8, -1i8, -1i8, -1i8]
    } else if c == 200 {
        seq![1i8, 11, 2, 1, 7, 11, 1, 5, 7, -1i8, -1i8, -1i8, -1i8, -1i8, -1i8, -1i8]
    } else if c == 201 {
        seq![8i8, 0, 3, 1, 11, 2, 1, 7, 11, 1, 5, 7, -1i8, -1i8, -1i8, -1i8]
    } else if c == 202 {
        seq![7i8, 11, 2, 7, 2, 9, 2, 0, 9, 5, 7, 9, -1i8, -1i8, -1i8, -1i8]
    } else if c == 203 {
        seq![7i8, 9, 5, 8, 9, 7, 3, 11, 2, -1i8, -1i8, -1i8, -1i8, -1i8, -1i8, -1i8]
    } else if c == 204 {
        seq![3i8, 1, 7, 7, 1, 5, -1i8, -1i8, -1i8, -1i8, -1i8, -1i8, -1i8, -1i8, -1i8, -1i8]
    } else if c == 205 {
        seq![8i8, 0, 7, 0, 1, 7, 1, 5, 7, -1i8, -1i8, -1i8, -1i8, -1i8, -1i8, -1i8]
    } else if c == 206 {
        seq![0i8, 9, 3, 9, 5, 3, 5, 7, 3, -1i8, -1i8, -1i8, -1i8, -1i8, -1i8, -1i8]
    } else {
        seq![9i8, 7, 8, 5, 7, 9, -1i8, -1i8, -1i8, -1i8, -1i8, -1i8, -1i8, -1i8, -1i8, -1i8]
    }
}

/// Triangle rows of configurations 208 to 223.
pub open spec fn canonical_rows_block_13(c: int) -> Seq<i8> {
    if c == 208 {
        seq![8i8, 5, 4, 8, 10, 5, 8, 11, 10, -1i8, -1i8, -1i8, -1i8, -1i8, -1i8, -1i8]
    } else if c == 209 {
        seq![0i8, 3, 11, 0, 11, 5, 11, 10, 5, 4, 0, 5, -1i8, -1i8, -1i8, -1i8]
    } else if c == 210 {
        seq![1i8, 0, 9, 8, 5, 4, 8, 10, 5, 8, 11, 10, -1i8, -1i8, -1i8, -1i8]
    } else if c == 211 {
        seq![10i8, 3, 11, 1, 3, 10, 9, 5, 4, -1i8, -1i8, -1i8, -1i8, -1i8, -1i8, -1i8]
    } else if c == 212 {
        seq![3i8, 2, 8, 8, 2, 4, 4, 2, 10, 4, 10, 5, -1i8, -1i8, -1i8, -1i8]
    } else if c == 213 {
        seq![10i8, 5, 2, 5, 4, 2, 4, 0, 2, -1i8, -1i8, -1i8, -1i8, -1i8, -1i8, -1i8]
    } else if c == 214 {
        seq![5i8, 4, 9, 8, 3, 0, 10, 1, 2, -1i8, -1i8, -1i8, -1i8, -1i8, -1i8, -1i8]
    } else if c == 215 {
        seq![2i8, 10, 1, 4, 9, 5, -1i8, -1i8, -1i8, -1i8, -1i8, -1i8, -1i8, -1i8, -1i8, -1i8]
    } else if c == 216 {
        seq![8i8, 11, 4, 11, 2, 1, 4, 11, 1, 4, 1, 5, -1i8, -1i8, -1i8, -1i8]
    } else if c == 217 {
        seq![0i8, 5, 4, 1, 5, 0, 2, 3, 11, -1i8, -1i8, -1i8, -1i8, -1i8, -1i8, -1i8]
    } else if c == 218 {
        seq![0i8, 11, 2, 8, 11, 0, 4, 9, 5, -1i8, -1i8, -1i8, -1i8, -1i8, -1i8, -1i8]
    } else if c == 219 {
        seq![5i8, 4, 9, 2, 3, 11, -1i8, -1i8, -1i8, -1i8, -1i8, -1i8, -1i8, -1i8, -1i8, -1i8]
    } else if c == 220 {
        seq![4i8, 8, 5, 8, 3, 5, 3, 1, 5, -1i8, -1i8, -1i8, -1i8, -1i8, -1i8, -1i8]
    } else if c == 221 {
        seq![0i8, 5, 4, 1, 5, 0, -1i8, -1i8, -1i8, -1i8, -1i8, -1i8, -1i8, -1i8, -1i8, -1i8]
    } else if c == 222 {
        seq![5i8, 4, 9, 3, 0, 8, -1i8, -1i8, -1i8, -1i8, -1i8, -1i8, -1i8, -1i8, -1i8, -1i8]
    } else {
        seq![5i8, 4, 9, -1i8, -1i8, -1i8, -1i8, -1i8, -1i8, -1i8, -1i8, -1i8, -1i8, -1i8, -1i8, -1i8]
    }
}

/// Triangle rows of configurations 224 to 239.
pub open spec fn canonical_rows_block_14(c: int) -> Seq<i8> {
    if c == 224 {
        seq![11i8, 4, 7, 11, 9, 4, 11, 10, 9, -1i8, -1i8, -1i8, -1i8, -1i8, -1i8, -1i8]
    } else if c == 225 {
        seq![0i8, 3, 8, 11, 4, 7, 11, 9, 4, 11, 10, 9, -1i8, -1i8, -1i8, -1i8]
    } else if c == 226 {
        seq![11i8, 10, 7, 10, 1, 0, 7, 10, 0, 7, 0, 4, -1i8, -1i8, -1i8, -1i8]
    } else if c == 227 {
        seq![3i8, 10, 1, 11, 10, 3, 7, 8, 4, -1i8, -1i8, -1i8, -1i8, -1i8, -1i8, -1i8]
    } else if c == 228 {
        seq![3i8, 2, 10, 3, 10, 4, 10, 9, 4, 7, 3, 4, -1i8, -1i8, -1i8, -1i8]
    } else if c == 229 {
        seq![9i8, 2, 10, 0, 2, 9, 8, 4, 7, -1i8, -1i8, -1i8, -1i8, -1i8, -1i8, -1i8]
    } else if c == 230 {
        seq![3i8, 4, 7, 0, 4, 3, 1, 2, 10, -1i8, -1i8, -1i8, -1i8, -1i8, -1i8, -1i8]
    } else if c == 231 {
        seq![7i8, 8, 4, 10, 1, 2, -1i8, -1i8, -1i8, -1i8, -1i8, -1i8, -1i8, -1i8, -1i8, -1i8]
    } else if c == 232 {
        seq![7i8, 11, 4, 4, 11, 9, 9, 11, 2, 9, 2, 1, -1i8, -1i8, -1i8, -1i8]
    } else if c == 233 {
        seq![1i8, 9, 0, 4, 7, 8, 2, 3, 11, -1i8, -1i8, -1i8, -1i8, -1i8, -1i8, -1i8]
    } else if c == 234 {
        seq![7i8, 11, 4, 11, 2, 4, 2, 0, 4, -1i8, -1i8, -1i8, -1i8, -1i8, -1i8, -1i8]
    } else if c == 235 {
        seq![4i8, 7, 8, 2, 3, 11, -1i8, -1i8, -1i8, -1i8, -1i8, -1i8, -1i8, -1i8, -1i8, -1i8]
    } else if c == 236 {
        seq![9i8, 4, 1, 4, 7, 1, 7, 3, 1, -1i8, -1i8, -1i8, -1i8, -1i8, -1i8, -1i8]
    } else if c == 237 {
        seq![7i8, 8, 4, 1, 9, 0, -1i8, -1i8, -1i8, -1i8, -1i8, -1i8, -1i8, -1i8, -1i8, -1i8]
    } else if c == 238 {
        seq![3i8, 4, 7, 0, 4, 3, -1i8, -1i8, -1i8, -1i8, -1i8, -1i8, -1i8, -1i8, -1i8, -1i8]
    } else {
        seq![7i8, 8, 4, -1i8, -1i8, -1i8, -1i8, -1i8, -1i8, -1i8, -1i8, -1i8, -1i8, -1i8, -1i8, -1i8]
    }
}

/// Triangle rows of configurations 240 to 255.
pub open spec fn canonical_rows_block_15(c: int) -> Seq<i8> {
    if c == 240 {
        seq![11i8, 10, 8, 8, 10, 9, -1i8, -1i8, -1i8, -1i8, -1i8, -1i8, -1i8, -1i8, -1i8, -1i8]
    } else if c == 241 {
        seq![0i8, 3, 9, 3, 11, 9, 11, 10, 9, -1i8, -1i8, -1i8, -1i8, -1i8, -1i8, -1i8]
    } else if c == 242 {
        seq![1i8, 0, 10, 0, 8, 10, 8, 11, 10, -1i8, -1i8, -1i8, -1i8, -1i8, -1i8, -1i8]
    } else if c == 243 {
        seq![10i8, 3, 11, 1, 3, 10, -1i8, -1i8, -1i8, -1i8, -1i8, -1i8, -1i8, -1i8, -1i8, -1i8]
    } else if c == 244 {
        seq![3i8, 2, 8, 2, 10, 8, 10, 9, 8, -1i8, -1i8, -1i8, -1i8, -1i8, -1i8, -1i8]
    } else if c == 245 {
        seq![9i8, 2, 10, 0, 2, 9, -1i8, -1i8, -1i8, -1i8, -1i8, -1i8, -1i8, -1i8, -1i8, -1i8]
    } else if c == 246 {
        seq![8i8, 3, 0, 10, 1, 2, -1i8, -1i8, -1i8, -1i8, -1i8, -1i8, -1i8, -1i8, -1i8, -1i8]
    } else if c == 247 {
        seq![2i8, 10, 1, -1i8, -1i8, -1i8, -1i8, -1i8, -1i8, -1i8, -1i8, -1i8, -1i8, -1i8, -1i8, -1i8]
    } else if c == 248 {
        seq![2i8, 1, 11, 1, 9, 11, 9, 8, 11, -1i8, -1i8, -1i8, -1i8, -1i8, -1i8, -1i8]
    } else if c == 249 {
        seq![11i8, 2, 3, 9, 0, 1, -1i8, -1i8, -1i8, -1i8, -1i8, -1i8, -1i8, -1i8, -1i8, -1i8]
    } else if c == 250 {
        seq![11i8, 0, 8, 2, 0, 11, -1i8, -1i8, -1i8, -1i8, -1i8, -1i8, -1i8, -1i8, -1i8, -1i8]
    } else if c == 251 {
        seq![3i8, 11, 2, -1i8, -1i8, -1i8, -1i8, -1i8, -1i8, -1i8, -1i8, -1i8, -1i8, -1i8, -1i8, -1i8]
    } else if c == 252 {
        seq![1i8, 8, 3, 9, 8, 1, -1i8, -1i8, -1i8, -1i8, -1i8, -1i8, -1i8, -1i8, -1i8, -1i8]
    } else if c == 253 {
        seq![1i8, 9, 0, -1i8, -1i8, -1i8, -1i8, -1i8, -1i8, -1i8, -1i8, -1i8, -1i8, -1i8, -1i8, -1i8]
    } else if c == 254 {
        seq![8i8, 3, 0, -1i8, -1i8, -1i8, -1i8, -1i8, -1i8, -1i8, -1i8, -1i8, -1i8, -1i8, -1i8, -1i8]
    } else {
        seq![-1i8, -1i8, -1i8, -1i8, -1i8, -1i8, -1i8, -1i8, -1i8, -1i8, -1i8, -1i8, -1i8, -1i8, -1i8, -1i8]
    }
}

/// The canonical triangle-table row of configuration `c`: edge-index
/// triples in authoring order, then `-1` sentinels out to 16 entries.
pub open spec fn canonical_row(c: int) -> Seq<i8> {
    if c < 16 {
        canonical_rows_block_0(c)
    }     else if c < 32 {
        canonical_rows_block_1(c)
    }     else if c < 48 {
        canonical_rows_block_2(c)
    }     else if c < 64 {
        canonical_rows_block_3(c)
    }     else if c < 80 {
        canonical_rows_block_4(c)
    }     else if c < 96 {
        canonical_rows_block_5(c)
    }     else if c < 112 {
        canonical_rows_block_6(c)
    }     else if c < 128 {
        canonical_rows_block_7(c)
    }     else if c < 144 {
        canonical_rows_block_8(c)
    }     else if c < 160 {
        canonical_rows_block_9(c)
    }     else if c < 176 {
        canonical_rows_block_10(c)
    }     else if c < 192 {
        canonical_rows_block_11(c)
    }     else if c < 208 {
        canonical_rows_block_12(c)
    }     else if c < 224 {
        canonical_rows_block_13(c)
    }     else if c < 240 {
        canonical_rows_block_14(c)
    } else {
        canonical_rows_block_15(c)
    }
}

proof fn lemma_canonical_block_0_ok(c: int)
    requires
        0 <= c < 16,
    ensures
        canonical_row(c).len() == 16,
        exists|s: int| prefix_ok(canonical_row(c), s),
        (canonical_mask(c) == 0) <==> (canonical_row(c)[0] == -1),
        (canonical_mask(c) == 0) <==> (c == 0 || c == 255),
{
    if c == 0 {
        assert(canonical_row(0).len() == 16);
        assert(prefix_ok(canonical_row(0), 0));
        assert(canonical_mask(0) == 0);
        assert(canonical_row(0)[0] == -1);
    }
    else if c == 1 {
        assert(canonical_row(1).len() == 16);
        assert(prefix_ok(canonical_row(1), 3));
        assert(canonical_mask(1) != 0);
        assert(canonical_row(1)[0] != -1);
    }
    else if c == 2 {
        assert(canonical_row(2).len() == 16);
        assert(prefix_ok(canonical_row(2), 3));
        assert(canonical_mask(2) != 0);
        assert(canonical_row(2)[0] != -1);
    }
    else if c == 3 {
        assert(canonical_row(3).len() == 16);
        assert(prefix_ok(canonical_row(3), 6));
        assert(canonical_mask(3) != 0);
        assert(canonical_row(3)[0] != -1);
    }
    else if c == 4 {
        assert(canonical_row(4).len() == 16);
        assert(prefix_ok(canonical_row(4), 3));
        assert(canonical_mask(4) != 0);
        assert(canonical_row(4)[0] != -1);
    }
    else if c == 5 {
        assert(canonical_row(5).len() == 16);
        assert(prefix_ok(canonical_row(5), 6));
        assert(canonical_mask(5) != 0);
        assert(canonical_row(5)[0] != -1);
    }
    else if c == 6 {
        assert(canonical_row(6).len() == 16);
        assert(prefix_ok(canonical_row(6), 6));
        assert(canonical_mask(6) != 0);
        assert(canonical_row(6)[0] != -1);
    }
    else if c == 7 {
        assert(canonical_row(7).len() == 16);
        assert(prefix_ok(canonical_row(7), 9));
        assert(canonical_mask(7) != 0);
        assert(canonical_row(7)[0] != -1);
    }
    else if c == 8 {
        assert(canonical_row(8).len() == 16);
        assert(prefix_ok(canonical_row(8), 3));
        assert(canonical_mask(8) != 0);
        assert(canonical_row(8)[0] != -1);
    }
    else if c == 9 {
        assert(canonical_row(9).len() == 16);
        assert(prefix_ok(canonical_row(9), 6));
        assert(canonical_mask(9) != 0);
        assert(canonical_row(9)[0] != -1);
    }
    else if c == 10 {
        assert(canonical_row(10).len() == 16);
        assert(prefix_ok(canonical_row(10), 6));
        assert(canonical_mask(10) != 0);
        assert(canonical_row(10)[0] != -1);
    }
    else if c == 11 {
        assert(canonical_row(11).len() == 16);
        assert(prefix_ok(canonical_row(11), 9));
        assert(canonical_mask(11) != 0);
        assert(canonical_row(11)[0] != -1);
    }
    else if c == 12 {
        assert(canonical_row(12).len() == 16);
        assert(prefix_ok(canonical_row(12), 6));
        assert(canonical_mask(12) != 0);
        assert(canonical_row(12)[0] != -1);
    }
    else if c == 13 {
        assert(canonical_row(13).len() == 16);
        assert(prefix_ok(canonical_row(13), 9));
        assert(canonical_mask(13) != 0);
        assert(canonical_row(13)[0] != -1);
    }
    else if c == 14 {
        assert(canonical_row(14).len() == 16);
        assert(prefix_ok(canonical_row(14), 9));
        assert(canonical_mask(14) != 0);
        assert(canonical_row(14)[0] != -1);
    }
    else if c == 15 {
        assert(canonical_row(15).len() == 16);
        assert(prefix_ok(canonical_row(15), 6));
        assert(canonical_mask(15) != 0);
        assert(canonical_row(15)[0] != -1);
    }
}

proof fn lemma_canonical_block_1_ok(c: int)
    requires
        16 <= c < 32,
    ensures
        canonical_row(c).len() == 16,
        exists|s: int| prefix_ok(canonical_row(c), s),
        (canonical_mask(c) == 0) <==> (canonical_row(c)[0] == -1),
        (canonical_mask(c) == 0) <==> (c == 0 || c == 255),
{
    if c == 16 {
        assert(canonical_row(16).len() == 16);
        assert(prefix_ok(canonical_row(16), 3));
        assert(canonical_mask(16) != 0);
        assert(canonical_row(16)[0] != -1);
    }
    else if c == 17 {
        assert(canonical_row(17).len() == 16);
        assert(prefix_ok(canonical_row(17), 6));
        assert(canonical_mask(17) != 0);
        assert(canonical_row(17)[0] != -1);
    }
    else if c == 18 {
        assert(canonical_row(18).len() == 16);
        assert(prefix_ok(canonical_row(18), 6));
        assert(canonical_mask(18) != 0);
        assert(canonical_row(18)[0] != -1);
    }
    else if c == 19 {
        assert(canonical_row(19).len() == 16);
        assert(prefix_ok(canonical_row(19), 9));
        assert(canonical_mask(19) != 0);
        assert(canonical_row(19)[0] != -1);
    }
    else if c == 20 {
        assert(canonical_row(20).len() == 16);
        assert(prefix_ok(canonical_row(20), 6));
        assert(canonical_mask(20) != 0);
        assert(canonical_row(20)[0] != -1);
    }
    else if c == 21 {
        assert(canonical_row(21).len() == 16);
        assert(prefix_ok(canonical_row(21), 9));
        assert(canonical_mask(21) != 0);
        assert(canonical_row(21)[0] != -1);
    }
    else if c == 22 {
        assert(canonical_row(22).len() == 16);
        assert(prefix_ok(canonical_row(22), 9));
        assert(canonical_mask(22) != 0);
        assert(canonical_row(22)[0] != -1);
    }
    else if c == 23 {
        assert(canonical_row(23).len() == 16);
        assert(prefix_ok(canonical_row(23), 12));
        assert(canonical_mask(23) != 0);
        assert(canonical_row(23)[0] != -1);
    }
    else if c == 24 {
        assert(canonical_row(24).len() == 16);
        assert(prefix_ok(canonical_row(24), 6));
        assert(canonical_mask(24) != 0);
        assert(canonical_row(24)[0] != -1);
    }
    else if c == 25 {
        assert(canonical_row(25).len() == 16);
        assert(prefix_ok(canonical_row(25), 9));
        assert(canonical_mask(25) != 0);
        assert(canonical_row(25)[0] != -1);
    }
    else if c == 26 {
        assert(canonical_row(26).len() == 16);
        assert(prefix_ok(canonical_row(26), 9));
        assert(canonical_mask(26) != 0);
        assert(canonical_row(26)[0] != -1);
    }
    else if c == 27 {
        assert(canonical_row(27).len() == 16);
        assert(prefix_ok(canonical_row(27), 12));
        assert(canonical_mask(27) != 0);
        assert(canonical_row(27)[0] != -1);
    }
    else if c == 28 {
        assert(canonical_row(28).len() == 16);
        assert(prefix_ok(canonical_row(28), 9));
        assert(canonical_mask(28) != 0);
        assert(canonical_row(28)[0] != -1);
    }
    else if c == 29 {
        assert(canonical_row(29).len() == 16);
        assert(prefix_ok(canonical_row(29), 12));
        assert(canonical_mask(29) != 0);
        assert(canonical_row(29)[0] != -1);
    }
    else if c == 30 {
        assert(canonical_row(30).len() == 16);
        assert(prefix_ok(canonical_row(30), 12));
        assert(canonical_mask(30) != 0);
        assert(canonical_row(30)[0] != -1);
    }
    else if c == 31 {
        assert(canonical_row(31).len() == 16);
        assert(prefix_ok(canonical_row(31), 9));
        assert(canonical_mask(31) != 0);
        assert(canonical_row(31)[0] != -1);
    }
}

proof fn lemma_canonical_block_2_ok(c: int)
    requires
        32 <= c < 48,
    ensures
        canonical_row(c).len() == 16,
        exists|s: int| prefix_ok(canonical_row(c), s),
        (canonical_mask(c) == 0) <==> (canonical_row(c)[0] == -1),
        (canonical_mask(c) == 0) <==> (c == 0 || c == 255),
{
    if c == 32 {
        assert(canonical_row(32).len() == 16);
        assert(prefix_ok(canonical_row(32), 3));
        assert(canonical_mask(32) != 0);
        assert(canonical_row(32)[0] != -1);
    }
    else if c == 33 {
        assert(canonical_row(33).len() == 16);
        assert(prefix_ok(canonical_row(33), 6));
        assert(canonical_mask(33) != 0);
        assert(canonical_row(33)[0] != -1);
    }
    else if c == 34 {
        assert(canonical_row(34).len() == 16);
        assert(prefix_ok(canonical_row(34), 6));
        assert(canonical_mask(34) != 0);
        assert(canonical_row(34)[0] != -1);
    }
    else if c == 35 {
        assert(canonical_row(35).len() == 16);
        assert(prefix_ok(canonical_row(35), 9));
        assert(canonical_mask(35) != 0);
        assert(canonical_row(35)[0] != -1);
    }
    else if c == 36 {
        assert(canonical_row(36).len() == 16);
        assert(prefix_ok(canonical_row(36), 6));
        assert(canonical_mask(36) != 0);
        assert(canonical_row(36)[0] != -1);
    }
    else if c == 37 {
        assert(canonical_row(37).len() == 16);
        assert(prefix_ok(canonical_row(37), 9));
        assert(canonical_mask(37) != 0);
        assert(canonical_row(37)[0] != -1);
    }
    else if c == 38 {
        assert(canonical_row(38).len() == 16);
        assert(prefix_ok(canonical_row(38), 9));
        assert(canonical_mask(38) != 0);
        assert(canonical_row(38)[0] != -1);
    }
    else if c == 39 {
        assert(canonical_row(39).len() == 16);
        assert(prefix_ok(canonical_row(39), 12));
        assert(canonical_mask(39) != 0);
        assert(canonical_row(39)[0] != -1);
    }
    else if c == 40 {
        assert(canonical_row(40).len() == 16);
        assert(prefix_ok(canonical_row(40), 6));
        assert(canonical_mask(40) != 0);
        assert(canonical_row(40)[0] != -1);
    }
    else if c == 41 {
        assert(canonical_row(41).len() == 16);
        assert(prefix_ok(canonical_row(41), 9));
        assert(canonical_mask(41) != 0);
        assert(canonical_row(41)[0] != -1);
    }
    else if c == 42 {
        assert(canonical_row(42).len() == 16);
        assert(prefix_ok(canonical_row(42), 9));
        assert(canonical_mask(42) != 0);
        assert(canonical_row(42)[0] != -1);
    }
    else if c == 43 {
        assert(canonical_row(43).len() == 16);
        assert(prefix_ok(canonical_row(43), 12));
        assert(canonical_mask(43) != 0);
        assert(canonical_row(43)[0] != -1);
    }
    else if c == 44 {
        assert(canonical_row(44).len() == 16);
        assert(prefix_ok(canonical_row(44), 9));
        assert(canonical_mask(44) != 0);
        assert(canonical_row(44)[0] != -1);
    }
    else if c == 45 {
        assert(canonical_row(45).len() == 16);
        assert(prefix_ok(canonical_row(45), 12));
        assert(canonical_mask(45) != 0);
        assert(canonical_row(45)[0] != -1);
    }
    else if c == 46 {
        assert(canonical_row(46).len() == 16);
        assert(prefix_ok(canonical_row(46), 12));
        assert(canonical_mask(46) != 0);
        assert(canonical_row(46)[0] != -1);
    }
    else if c == 47 {
        assert(canonical_row(47).len() == 16);
        assert(prefix_ok(canonical_row(47), 9));
        assert(canonical_mask(47) != 0);
        assert(canonical_row(47)[0] != -1);
    }
}

proof fn lemma_canonical_block_3_ok(c: int)
    requires
        48 <= c < 64,
    ensures
        canonical_row(c).len() == 16,
        exists|s: int| prefix_ok(canonical_row(c), s),
        (canonical_mask(c) == 0) <==> (canonical_row(c)[0] == -1),
        (canonical_mask(c) == 0) <==> (c == 0 || c == 255),
{
    if c == 48 {
        assert(canonical_row(48).len() == 16);
        assert(prefix_ok(canonical_row(48), 6));
        assert(canonical_mask(48) != 0);
        assert(canonical_row(48)[0] != -1);
    }
    else if c == 49 {
        assert(canonical_row(49).len() == 16);
        assert(prefix_ok(canonical_row(49), 9));
        assert(canonical_mask(49) != 0);
        assert(canonical_row(49)[0] != -1);
    }
    else if c == 50 {
        assert(canonical_row(50).len() == 16);
        assert(prefix_ok(canonical_row(50), 9));
        assert(canonical_mask(50) != 0);
        assert(canonical_row(50)[0] != -1);
    }
    else if c == 51 {
        assert(canonical_row(51).len() == 16);
        assert(prefix_ok(canonical_row(51), 6));
        assert(canonical_mask(51) != 0);
        assert(canonical_row(51)[0] != -1);
    }
    else if c == 52 {
        assert(canonical_row(52).len() == 16);
        assert(prefix_ok(canonical_row(52), 9));
        assert(canonical_mask(52) != 0);
        assert(canonical_row(52)[0] != -1);
    }
    else if c == 53 {
        assert(canonical_row(53).len() == 16);
        assert(prefix_ok(canonical_row(53), 12));
        assert(canonical_mask(53) != 0);
        assert(canonical_row(53)[0] != -1);
    }
    else if c == 54 {
        assert(canonical_row(54).len() == 16);
        assert(prefix_ok(canonical_row(54), 12));
        assert(canonical_mask(54) != 0);
        assert(canonical_row(54)[0] != -1);
    }
    else if c == 55 {
        assert(canonical_row(55).len() == 16);
        assert(prefix_ok(canonical_row(55), 9));
        assert(canonical_mask(55) != 0);
        assert(canonical_row(55)[0] != -1);
    }
    else if c == 56 {
        assert(canonical_row(56).len() == 16);
        assert(prefix_ok(canonical_row(56), 9));
        assert(canonical_mask(56) != 0);
        assert(canonical_row(56)[0] != -1);
    }
    else if c == 57 {
        assert(canonical_row(57).len() == 16);
        assert(prefix_ok(canonical_row(57), 12));
        assert(canonical_mask(57) != 0);
        assert(canonical_row(57)[0] != -1);
    }
    else if c == 58 {
        assert(canonical_row(58).len() == 16);
        assert(prefix_ok(canonical_row(58), 12));
        assert(canonical_mask(58) != 0);
        assert(canonical_row(58)[0] != -1);
    }
    else if c == 59 {
        assert(canonical_row(59).len() == 16);
        assert(prefix_ok(canonical_row(59), 9));
        assert(canonical_mask(59) != 0);
        assert(canonical_row(59)[0] != -1);
    }
    else if c == 60 {
        assert(canonical_row(60).len() == 16);
        assert(prefix_ok(canonical_row(60), 12));
        assert(canonical_mask(60) != 0);
        assert(canonical_row(60)[0] != -1);
    }
    else if c == 61 {
        assert(canonical_row(61).len() == 16);
        assert(prefix_ok(canonical_row(61), 9));
        assert(canonical_mask(61) != 0);
        assert(canonical_row(61)[0] != -1);
    }
    else if c == 62 {
        assert(canonical_row(62).len() == 16);
        assert(prefix_ok(canonical_row(62), 9));
        assert(canonical_mask(62) != 0);
        assert(canonical_row(62)[0] != -1);
    }
    else if c == 63 {
        assert(canonical_row(63).len() == 16);
        assert(prefix_ok(canonical_row(63), 6));
        assert(canonical_mask(63) != 0);
        assert(canonical_row(63)[0] != -1);
    }
}

proof fn lemma_canonical_block_4_ok(c: int)
    requires
        64 <= c < 80,
    ensures
        canonical_row(c).len() == 16,
        exists|s: int| prefix_ok(canonical_row(c), s),
        (canonical_mask(c) == 0) <==> (canonical_row(c)[0] == -1),
        (canonical_mask(c) == 0) <==> (c == 0 || c == 255),
{
    if c == 64 {
        assert(canonical_row(64).len() == 16);
        assert(prefix_ok(canonical_row(64), 3));
        assert(canonical_mask(64) != 0);
        assert(canonical_row(64)[0] != -1);
    }
    else if c == 65 {
        assert(canonical_row(65).len() == 16);
        assert(prefix_ok(canonical_row(65), 6));
        assert(canonical_mask(65) != 0);
        assert(canonical_row(65)[0] != -1);
    }
    else if c == 66 {
        assert(canonical_row(66).len() == 16);
        assert(prefix_ok(canonical_row(66), 6));
        assert(canonical_mask(66) != 0);
        assert(canonical_row(66)[0] != -1);
    }
    else if c == 67 {
        assert(canonical_row(67).len() == 16);
        assert(prefix_ok(canonical_row(67), 9));
        assert(canonical_mask(67) != 0);
        assert(canonical_row(67)[0] != -1);
    }
    else if c == 68 {
        assert(canonical_row(68).len() == 16);
        assert(prefix_ok(canonical_row(68), 6));
        assert(canonical_mask(68) != 0);
        assert(canonical_row(68)[0] != -1);
    }
    else if c == 69 {
        assert(canonical_row(69).len() == 16);
        assert(prefix_ok(canonical_row(69), 9));
        assert(canonical_mask(69) != 0);
        assert(canonical_row(69)[0] != -1);
    }
    else if c == 70 {
        assert(canonical_row(70).len() == 16);
        assert(prefix_ok(canonical_row(70), 9));
        assert(canonical_mask(70) != 0);
        assert(canonical_row(70)[0] != -1);
    }
    else if c == 71 {
        assert(canonical_row(71).len() == 16);
        assert(prefix_ok(canonical_row(71), 12));
        assert(canonical_mask(71) != 0);
        assert(canonical_row(71)[0] != -1);
    }
    else if c == 72 {
        assert(canonical_row(72).len() == 16);
        assert(prefix_ok(canonical_row(72), 6));
        assert(canonical_mask(72) != 0);
        assert(canonical_row(72)[0] != -1);
    }
    else if c == 73 {
        assert(canonical_row(73).len() == 16);
        assert(prefix_ok(canonical_row(73), 9));
        assert(canonical_mask(73) != 0);
        assert(canonical_row(73)[0] != -1);
    }
    else if c == 74 {
        assert(canonical_row(74).len() == 16);
        assert(prefix_ok(canonical_row(74), 9));
        assert(canonical_mask(74) != 0);
        assert(canonical_row(74)[0] != -1);
    }
    else if c == 75 {
        assert(canonical_row(75).len() == 16);
        assert(prefix_ok(canonical_row(75), 12));
        assert(canonical_mask(75) != 0);
        assert(canonical_row(75)[0] != -1);
    }
    else if c == 76 {
        assert(canonical_row(76).len() == 16);
        assert(prefix_ok(canonical_row(76), 9));
        assert(canonical_mask(76) != 0);
        assert(canonical_row(76)[0] != -1);
    }
    else if c == 77 {
        assert(canonical_row(77).len() == 16);
        assert(prefix_ok(canonical_row(77), 12));
        assert(canonical_mask(77) != 0);
        assert(canonical_row(77)[0] != -1);
    }
    else if c == 78 {
        assert(canonical_row(78).len() == 16);
        assert(prefix_ok(canonical_row(78), 12));
        assert(canonical_mask(78) != 0);
        assert(canonical_row(78)[0] != -1);
    }
    else if c == 79 {
        assert(canonical_row(79).len() == 16);
        assert(prefix_ok(canonical_row(79), 9));
        assert(canonical_mask(79) != 0);
        assert(canonical_row(79)[0] != -1);
    }
}

proof fn lemma_canonical_block_5_ok(c: int)
    requires
        80 <= c < 96,
    ensures
        canonical_row(c).len() == 16,
        exists|s: int| prefix_ok(canonical_row(c), s),
        (canonical_mask(c) == 0) <==> (canonical_row(c)[0] == -1),
        (canonical_mask(c) == 0) <==> (c == 0 || c == 255),
{
    if c == 80 {
        assert(canonical_row(80).len() == 16);
        assert(prefix_ok(canonical_row(80), 6));
        assert(canonical_mask(80) != 0);
        assert(canonical_row(80)[0] != -1);
    }
    else if c == 81 {
        assert(canonical_row(81).len() == 16);
        assert(prefix_ok(canonical_row(81), 9));
        assert(canonical_mask(81) != 0);
        assert(canonical_row(81)[0] != -1);
    }
    else if c == 82 {
        assert(canonical_row(82).len() == 16);
        assert(prefix_ok(canonical_row(82), 9));
        assert(canonical_mask(82) != 0);
        assert(canonical_row(82)[0] != -1);
    }
    else if c == 83 {
        assert(canonical_row(83).len() == 16);
        assert(prefix_ok(canonical_row(83), 12));
        assert(canonical_mask(83) != 0);
        assert(canonical_row(83)[0] != -1);
    }
    else if c == 84 {
        assert(canonical_row(84).len() == 16);
        assert(prefix_ok(canonical_row(84), 9));
        assert(canonical_mask(84) != 0);
        assert(canonical_row(84)[0] != -1);
    }
    else if c == 85 {
        assert(canonical_row(85).len() == 16);
        assert(prefix_ok(canonical_row(85), 6));
        assert(canonical_mask(85) != 0);
        assert(canonical_row(85)[0] != -1);
    }
    else if c == 86 {
        assert(canonical_row(86).len() == 16);
        assert(prefix_ok(canonical_row(86), 12));
        assert(canonical_mask(86) != 0);
        assert(canonical_row(86)[0] != -1);
    }
    else if c == 87 {
        assert(canonical_row(87).len() == 16);
        assert(prefix_ok(canonical_row(87), 9));
        assert(canonical_mask(87) != 0);
        assert(canonical_row(87)[0] != -1);
    }
    else if c == 88 {
        assert(canonical_row(88).len() == 16);
        assert(prefix_ok(canonical_row(88), 9));
        assert(canonical_mask(88) != 0);
        assert(canonical_row(88)[0] != -1);
    }
    else if c == 89 {
        assert(canonical_row(89).len() == 16);
        assert(prefix_ok(canonical_row(89), 12));
        assert(canonical_mask(89) != 0);
        assert(canonical_row(89)[0] != -1);
    }
    else if c == 90 {
        assert(canonical_row(90).len() == 16);
        assert(prefix_ok(canonical_row(90), 12));
        assert(canonical_mask(90) != 0);
        assert(canonical_row(90)[0] != -1);
    }
    else if c == 91 {
        assert(canonical_row(91).len() == 16);
        assert(prefix_ok(canonical_row(91), 9));
        assert(canonical_mask(91) != 0);
        assert(canonical_row(91)[0] != -1);
    }
    else if c == 92 {
        assert(canonical_row(92).len() == 16);
        assert(prefix_ok(canonical_row(92), 12));
        assert(canonical_mask(92) != 0);
        assert(canonical_row(92)[0] != -1);
    }
    else if c == 93 {
        assert(canonical_row(93).len() == 16);
        assert(prefix_ok(canonical_row(93), 9));
        assert(canonical_mask(93) != 0);
        assert(canonical_row(93)[0] != -1);
    }
    else if c == 94 {
        assert(canonical_row(94).len() == 16);
        assert(prefix_ok(canonical_row(94), 9));
        assert(canonical_mask(94) != 0);
        assert(canonical_row(94)[0] != -1);
    }
    else if c == 95 {
        assert(canonical_row(95).len() == 16);
        assert(prefix_ok(canonical_row(95), 6));
        assert(canonical_mask(95) != 0);
        assert(canonical_row(95)[0] != -1);
    }
}

proof fn lemma_canonical_block_6_ok(c: int)
    requires
        96 <= c < 112,
    ensures
        canonical_row(c).len() == 16,
        exists|s: int| prefix_ok(canonical_row(c), s),
        (canonical_mask(c) == 0) <==> (canonical_row(c)[0] == -1),
        (canonical_mask(c) == 0) <==> (c == 0 || c == 255),
{
    if c == 96 {
        assert(canonical_row(96).len() == 16);
        assert(prefix_ok(canonical_row(96), 6));
        assert(canonical_mask(96) != 0);
        assert(canonical_row(96)[0] != -1);
    }
    else if c == 97 {
        assert(canonical_row(97).len() == 16);
        assert(prefix_ok(canonical_row(97), 9));
        assert(canonical_mask(97) != 0);
        assert(canonical_row(97)[0] != -1);
    }
    else if c == 98 {
        assert(canonical_row(98).len() == 16);
        assert(prefix_ok(canonical_row(98), 9));
        assert(canonical_mask(98) != 0);
        assert(canonical_row(98)[0] != -1);
    }
    else if c == 99 {
        assert(canonical_row(99).len() == 16);
        assert(prefix_ok(canonical_row(99), 12));
        assert(canonical_mask(99) != 0);
        assert(canonical_row(99)[0] != -1);
    }
    else if c == 100 {
        assert(canonical_row(100).len() == 16);
        assert(prefix_ok(canonical_row(100), 9));
        assert(canonical_mask(100) != 0);
        assert(canonical_row(100)[0] != -1);
    }
    else if c == 101 {
        assert(canonical_row(101).len() == 16);
        assert(prefix_ok(canonical_row(101), 12));
        assert(canonical_mask(101) != 0);
        assert(canonical_row(101)[0] != -1);
    }
    else if c == 102 {
        assert(canonical_row(102).len() == 16);
        assert(prefix_ok(canonical_row(102), 12));
        assert(canonical_mask(102) != 0);
        assert(canonical_row(102)[0] != -1);
    }
    else if c == 103 {
        assert(canonical_row(103).len() == 16);
        assert(prefix_ok(canonical_row(103), 9));
        assert(canonical_mask(103) != 0);
        assert(canonical_row(103)[0] != -1);
    }
    else if c == 104 {
        assert(canonical_row(104).len() == 16);
        assert(prefix_ok(canonical_row(104), 9));
        assert(canonical_mask(104) != 0);
        assert(canonical_row(104)[0] != -1);
    }
    else if c == 105 {
        assert(canonical_row(105).len() == 16);
        assert(prefix_ok(canonical_row(105), 12));
        assert(canonical_mask(105) != 0);
        assert(canonical_row(105)[0] != -1);
    }
    else if c == 106 {
        assert(canonical_row(106).len() == 16);
        assert(prefix_ok(canonical_row(106), 12));
        assert(canonical_mask(106) != 0);
        assert(canonical_row(106)[0] != -1);
    }
    else if c == 107 {
        assert(canonical_row(107).len() == 16);
        assert(prefix_ok(canonical_row(107), 9));
        assert(canonical_mask(107) != 0);
        assert(canonical_row(107)[0] != -1);
    }
    else if c == 108 {
        assert(canonical_row(108).len() == 16);
        assert(prefix_ok(canonical_row(108), 12));
        assert(canonical_mask(108) != 0);
        assert(canonical_row(108)[0] != -1);
    }
    else if c == 109 {
        assert(canonical_row(109).len() == 16);
        assert(prefix_ok(canonical_row(109), 9));
        assert(canonical_mask(109) != 0);
        assert(canonical_row(109)[0] != -1);
    }
    else if c == 110 {
        assert(canonical_row(110).len() == 16);
        assert(prefix_ok(canonical_row(110), 9));
        assert(canonical_mask(110) != 0);
        assert(canonical_row(110)[0] != -1);
    }
    else if c == 111 {
        assert(canonical_row(111).len() == 16);
        assert(prefix_ok(canonical_row(111), 6));
        assert(canonical_mask(111) != 0);
        assert(canonical_row(111)[0] != -1);
    }
}

proof fn lemma_canonical_block_7_ok(c: int)
    requires
        112 <= c < 128,
    ensures
        canonical_row(c).len() == 16,
        exists|s: int| prefix_ok(canonical_row(c), s),
        (canonical_mask(c) == 0) <==> (canonical_row(c)[0] == -1),
        (canonical_mask(c) == 0) <==> (c == 0 || c == 255),
{
    if c == 112 {
        assert(canonical_row(112).len() == 16);
        assert(prefix_ok(canonical_row(112), 9));
        assert(canonical_mask(112) != 0);
        assert(canonical_row(112)[0] != -1);
    }
    else if c == 113 {
        assert(canonical_row(113).len() == 16);
        assert(prefix_ok(canonical_row(113), 12));
        assert(canonical_mask(113) != 0);
        assert(canonical_row(113)[0] != -1);
    }
    else if c == 114 {
        assert(canonical_row(114).len() == 16);
        assert(prefix_ok(canonical_row(114), 12));
        assert(canonical_mask(114) != 0);
        assert(canonical_row(114)[0] != -1);
    }
    else if c == 115 {
        assert(canonical_row(115).len() == 16);
        assert(prefix_ok(canonical_row(115), 9));
        assert(canonical_mask(115) != 0);
        assert(canonical_row(115)[0] != -1);
    }
    else if c == 116 {
        assert(canonical_row(116).len() == 16);
        assert(prefix_ok(canonical_row(116), 12));
        assert(canonical_mask(116) != 0);
        assert(canonical_row(116)[0] != -1);
    }
    else if c == 117 {
        assert(canonical_row(117).len() == 16);
        assert(prefix_ok(canonical_row(117), 9));
        assert(canonical_mask(117) != 0);
        assert(canonical_row(117)[0] != -1);
    }
    else if c == 118 {
        assert(canonical_row(118).len() == 16);
        assert(prefix_ok(canonical_row(118), 9));
        assert(canonical_mask(118) != 0);
        assert(canonical_row(118)[0] != -1);
    }
    else if c == 119 {
        assert(canonical_row(119).len() == 16);
        assert(prefix_ok(canonical_row(119), 6));
        assert(canonical_mask(119) != 0);
        assert(canonical_row(119)[0] != -1);
    }
    else if c == 120 {
        assert(canonical_row(120).len() == 16);
        assert(prefix_ok(canonical_row(120), 12));
        assert(canonical_mask(120) != 0);
        assert(canonical_row(120)[0] != -1);
    }
    else if c == 121 {
        assert(canonical_row(121).len() == 16);
        assert(prefix_ok(canonical_row(121), 9));
        assert(canonical_mask(121) != 0);
        assert(canonical_row(121)[0] != -1);
    }
    else if c == 122 {
        assert(canonical_row(122).len() == 16);
        assert(prefix_ok(canonical_row(122), 9));
        assert(canonical_mask(122) != 0);
        assert(canonical_row(122)[0] != -1);
    }
    else if c == 123 {
        assert(canonical_row(123).len() == 16);
        assert(prefix_ok(canonical_row(123), 6));
        assert(canonical_mask(123) != 0);
        assert(canonical_row(123)[0] != -1);
    }
    else if c == 124 {
        assert(canonical_row(124).len() == 16);
        assert(prefix_ok(canonical_row(124), 9));
        assert(canonical_mask(124) != 0);
        assert(canonical_row(124)[0] != -1);
    }
    else if c == 125 {
        assert(canonical_row(125).len() == 16);
        assert(prefix_ok(canonical_row(125), 6));
        assert(canonical_mask(125) != 0);
        assert(canonical_row(125)[0] != -1);
    }
    else if c == 126 {
        assert(canonical_row(126).len() == 16);
        assert(prefix_ok(canonical_row(126), 6));
        assert(canonical_mask(126) != 0);
        assert(canonical_row(126)[0] != -1);
    }
    else if c == 127 {
        assert(canonical_row(127).len() == 16);
        assert(prefix_ok(canonical_row(127), 3));
        assert(canonical_mask(127) != 0);
        assert(canonical_row(127)[0] != -1);
    }
}

proof fn lemma_canonical_block_8_ok(c: int)
    requires
        128 <= c < 144,
    ensures
        canonical_row(c).len() == 16,
        exists|s: int| prefix_ok(canonical_row(c), s),
        (canonical_mask(c) == 0) <==> (canonical_row(c)[0] == -1),
        (canonical_mask(c) == 0) <==> (c == 0 || c == 255),
{
    if c == 128 {
        assert(canonical_row(128).len() == 16);
        assert(prefix_ok(canonical_row(128), 3));
        assert(canonical_mask(128) != 0);
        assert(canonical_row(128)[0] != -1);
    }
    else if c == 129 {
        assert(canonical_row(129).len() == 16);
        assert(prefix_ok(canonical_row(129), 6));
        assert(canonical_mask(129) != 0);
        assert(canonical_row(129)[0] != -1);
    }
    else if c == 130 {
        assert(canonical_row(130).len() == 16);
        assert(prefix_ok(canonical_row(130), 6));
        assert(canonical_mask(130) != 0);
        assert(canonical_row(130)[0] != -1);
    }
    else if c == 131 {
        assert(canonical_row(131).len() == 16);
        assert(prefix_ok(canonical_row(131), 9));
        assert(canonical_mask(131) != 0);
        assert(canonical_row(131)[0] != -1);
    }
    else if c == 132 {
        assert(canonical_row(132).len() == 16);
        assert(prefix_ok(canonical_row(132), 6));
        assert(canonical_mask(132) != 0);
        assert(canonical_row(132)[0] != -1);
    }
    else if c == 133 {
        assert(canonical_row(133).len() == 16);
        assert(prefix_ok(canonical_row(133), 9));
        assert(canonical_mask(133) != 0);
        assert(canonical_row(133)[0] != -1);
    }
    else if c == 134 {
        assert(canonical_row(134).len() == 16);
        assert(prefix_ok(canonical_row(134), 9));
        assert(canonical_mask(134) != 0);
        assert(canonical_row(134)[0] != -1);
    }
    else if c == 135 {
        assert(canonical_row(135).len() == 16);
        assert(prefix_ok(canonical_row(135), 12));
        assert(canonical_mask(135) != 0);
        assert(canonical_row(135)[0] != -1);
    }
    else if c == 136 {
        assert(canonical_row(136).len() == 16);
        assert(prefix_ok(canonical_row(136), 6));
        assert(canonical_mask(136) != 0);
        assert(canonical_row(136)[0] != -1);
    }
    else if c == 137 {
        assert(canonical_row(137).len() == 16);
        assert(prefix_ok(canonical_row(137), 9));
        assert(canonical_mask(137) != 0);
        assert(canonical_row(137)[0] != -1);
    }
    else if c == 138 {
        assert(canonical_row(138).len() == 16);
        assert(prefix_ok(canonical_row(138), 9));
        assert(canonical_mask(138) != 0);
        assert(canonical_row(138)[0] != -1);
    }
    else if c == 139 {
        assert(canonical_row(139).len() == 16);
        assert(prefix_ok(canonical_row(139), 12));
        assert(canonical_mask(139) != 0);
        assert(canonical_row(139)[0] != -1);
    }
    else if c == 140 {
        assert(canonical_row(140).len() == 16);
        assert(prefix_ok(canonical_row(140), 9));
        assert(canonical_mask(140) != 0);
        assert(canonical_row(140)[0] != -1);
    }
    else if c == 141 {
        assert(canonical_row(141).len() == 16);
        assert(prefix_ok(canonical_row(141), 12));
        assert(canonical_mask(141) != 0);
        assert(canonical_row(141)[0] != -1);
    }
    else if c == 142 {
        assert(canonical_row(142).len() == 16);
        assert(prefix_ok(canonical_row(142), 12));
        assert(canonical_mask(142) != 0);
        assert(canonical_row(142)[0] != -1);
    }
    else if c == 143 {
        assert(canonical_row(143).len() == 16);
        assert(prefix_ok(canonical_row(143), 9));
        assert(canonical_mask(143) != 0);
        assert(canonical_row(143)[0] != -1);
    }
}

proof fn lemma_canonical_block_9_ok(c: int)
    requires
        144 <= c < 160,
    ensures
        canonical_row(c).len() == 16,
        exists|s: int| prefix_ok(canonical_row(c), s),
        (canonical_mask(c) == 0) <==> (canonical_row(c)[0] == -1),
        (canonical_mask(c) == 0) <==> (c == 0 || c == 255),
{
    if c == 144 {
        assert(canonical_row(144).len() == 16);
        assert(prefix_ok(canonical_row(144), 6));
        assert(canonical_mask(144) != 0);
        assert(canonical_row(144)[0] != -1);
    }
    else if c == 145 {
        assert(canonical_row(145).len() == 16);
        assert(prefix_ok(canonical_row(145), 9));
        assert(canonical_mask(145) != 0);
        assert(canonical_row(145)[0] != -1);
    }
    else if c == 146 {
        assert(canonical_row(146).len() == 16);
        assert(prefix_ok(canonical_row(146), 9));
        assert(canonical_mask(146) != 0);
        assert(canonical_row(146)[0] != -1);
    }
    else if c == 147 {
        assert(canonical_row(147).len() == 16);
        assert(prefix_ok(canonical_row(147), 12));
        assert(canonical_mask(147) != 0);
        assert(canonical_row(147)[0] != -1);
    }
    else if c == 148 {
        assert(canonical_row(148).len() == 16);
        assert(prefix_ok(canonical_row(148), 9));
        assert(canonical_mask(148) != 0);
        assert(canonical_row(148)[0] != -1);
    }
    else if c == 149 {
        assert(canonical_row(149).len() == 16);
        assert(prefix_ok(canonical_row(149), 12));
        assert(canonical_mask(149) != 0);
        assert(canonical_row(149)[0] != -1);
    }
    else if c == 150 {
        assert(canonical_row(150).len() == 16);
        assert(prefix_ok(canonical_row(150), 12));
        assert(canonical_mask(150) != 0);
        assert(canonical_row(150)[0] != -1);
    }
    else if c == 151 {
        assert(canonical_row(151).len() == 16);
        assert(prefix_ok(canonical_row(151), 9));
        assert(canonical_mask(151) != 0);
        assert(canonical_row(151)[0] != -1);
    }
    else if c == 152 {
        assert(canonical_row(152).len() == 16);
        assert(prefix_ok(canonical_row(152), 9));
        assert(canonical_mask(152) != 0);
        assert(canonical_row(152)[0] != -1);
    }
    else if c == 153 {
        assert(canonical_row(153).len() == 16);
        assert(prefix_ok(canonical_row(153), 12));
        assert(canonical_mask(153) != 0);
        assert(canonical_row(153)[0] != -1);
    }
    else if c == 154 {
        assert(canonical_row(154).len() == 16);
        assert(prefix_ok(canonical_row(154), 12));
        assert(canonical_mask(154) != 0);
        assert(canonical_row(154)[0] != -1);
    }
    else if c == 155 {
        assert(canonical_row(155).len() == 16);
        assert(prefix_ok(canonical_row(155), 9));
        assert(canonical_mask(155) != 0);
        assert(canonical_row(155)[0] != -1);
    }
    else if c == 156 {
        assert(canonical_row(156).len() == 16);
        assert(prefix_ok(canonical_row(156), 12));
        assert(canonical_mask(156) != 0);
        assert(canonical_row(156)[0] != -1);
    }
    else if c == 157 {
        assert(canonical_row(157).len() == 16);
        assert(prefix_ok(canonical_row(157), 9));
        assert(canonical_mask(157) != 0);
        assert(canonical_row(157)[0] != -1);
    }
    else if c == 158 {
        assert(canonical_row(158).len() == 16);
        assert(prefix_ok(canonical_row(158), 9));
        assert(canonical_mask(158) != 0);
        assert(canonical_row(158)[0] != -1);
    }
    else if c == 159 {
        assert(canonical_row(159).len() == 16);
        assert(prefix_ok(canonical_row(159), 6));
        assert(canonical_mask(159) != 0);
        assert(canonical_row(159)[0] != -1);
    }
}

proof fn lemma_canonical_block_10_ok(c: int)
    requires
        160 <= c < 176,
    ensures
        canonical_row(c).len() == 16,
        exists|s: int| prefix_ok(canonical_row(c), s),
        (canonical_mask(c) == 0) <==> (canonical_row(c)[0] == -1),
        (canonical_mask(c) == 0) <==> (c == 0 || c == 255),
{
    if c == 160 {
        assert(canonical_row(160).len() == 16);
        assert(prefix_ok(canonical_row(160), 6));
        assert(canonical_mask(160) != 0);
        assert(canonical_row(160)[0] != -1);
    }
    else if c == 161 {
        assert(canonical_row(161).len() == 16);
        assert(prefix_ok(canonical_row(161), 9));
        assert(canonical_mask(161) != 0);
        assert(canonical_row(161)[0] != -1);
    }
    else if c == 162 {
        assert(canonical_row(162).len() == 16);
        assert(prefix_ok(canonical_row(162), 9));
        assert(canonical_mask(162) != 0);
        assert(canonical_row(162)[0] != -1);
    }
    else if c == 163 {
        assert(canonical_row(163).len() == 16);
        assert(prefix_ok(canonical_row(163), 12));
        assert(canonical_mask(163) != 0);
        assert(canonical_row(163)[0] != -1);
    }
    else if c == 164 {
        assert(canonical_row(164).len() == 16);
        assert(prefix_ok(canonical_row(164), 9));
        assert(canonical_mask(164) != 0);
        assert(canonical_row(164)[0] != -1);
    }
    else if c == 165 {
        assert(canonical_row(165).len() == 16);
        assert(prefix_ok(canonical_row(165), 12));
        assert(canonical_mask(165) != 0);
        assert(canonical_row(165)[0] != -1);
    }
    else if c == 166 {
        assert(canonical_row(166).len() == 16);
        assert(prefix_ok(canonical_row(166), 12));
        assert(canonical_mask(166) != 0);
        assert(canonical_row(166)[0] != -1);
    }
    else if c == 167 {
        assert(canonical_row(167).len() == 16);
        assert(prefix_ok(canonical_row(167), 9));
        assert(canonical_mask(167) != 0);
        assert(canonical_row(167)[0] != -1);
    }
    else if c == 168 {
        assert(canonical_row(168).len() == 16);
        assert(prefix_ok(canonical_row(168), 9));
        assert(canonical_mask(168) != 0);
        assert(canonical_row(168)[0] != -1);
    }
    else if c == 169 {
        assert(canonical_row(169).len() == 16);
        assert(prefix_ok(canonical_row(169), 12));
        assert(canonical_mask(169) != 0);
        assert(canonical_row(169)[0] != -1);
    }
    else if c == 170 {
        assert(canonical_row(170).len() == 16);
        assert(prefix_ok(canonical_row(170), 6));
        assert(canonical_mask(170) != 0);
        assert(canonical_row(170)[0] != -1);
    }
    else if c == 171 {
        assert(canonical_row(171).len() == 16);
        assert(prefix_ok(canonical_row(171), 9));
        assert(canonical_mask(171) != 0);
        assert(canonical_row(171)[0] != -1);
    }
    else if c == 172 {
        assert(canonical_row(172).len() == 16);
        assert(prefix_ok(canonical_row(172), 12));
        assert(canonical_mask(172) != 0);
        assert(canonical_row(172)[0] != -1);
    }
    else if c == 173 {
        assert(canonical_row(173).len() == 16);
        assert(prefix_ok(canonical_row(173), 9));
        assert(canonical_mask(173) != 0);
        assert(canonical_row(173)[0] != -1);
    }
    else if c == 174 {
        assert(canonical_row(174).len() == 16);
        assert(prefix_ok(canonical_row(174), 9));
        assert(canonical_mask(174) != 0);
        assert(canonical_row(174)[0] != -1);
    }
    else if c == 175 {
        assert(canonical_row(175).len() == 16);
        assert(prefix_ok(canonical_row(175), 6));
        assert(canonical_mask(175) != 0);
        assert(canonical_row(175)[0] != -1);
    }
}

proof fn lemma_canonical_block_11_ok(c: int)
    requires
        176 <= c < 192,
    ensures
        canonical_row(c).len() == 16,
        exists|s: int| prefix_ok(canonical_row(c), s),
        (canonical_mask(c) == 0) <==> (canonical_row(c)[0] == -1),
        (canonical_mask(c) == 0) <==> (c == 0 || c == 255),
{
    if c == 176 {
        assert(canonical_row(176).len() == 16);
        assert(prefix_ok(canonical_row(176), 9));
        assert(canonical_mask(176) != 0);
        assert(canonical_row(176)[0] != -1);
    }
    else if c == 177 {
        assert(canonical_row(177).len() == 16);
        assert(prefix_ok(canonical_row(177), 12));
        assert(canonical_mask(177) != 0);
        assert(canonical_row(177)[0] != -1);
    }
    else if c == 178 {
        assert(canonical_row(178).len() == 16);
        assert(prefix_ok(canonical_row(178), 12));
        assert(canonical_mask(178) != 0);
        assert(canonical_row(178)[0] != -1);
    }
    else if c == 179 {
        assert(canonical_row(179).len() == 16);
        assert(prefix_ok(canonical_row(179), 9));
        assert(canonical_mask(179) != 0);
        assert(canonical_row(179)[0] != -1);
    }
    else if c == 180 {
        assert(canonical_row(180).len() == 16);
        assert(prefix_ok(canonical_row(180), 12));
        assert(canonical_mask(180) != 0);
        assert(canonical_row(180)[0] != -1);
    }
    else if c == 181 {
        assert(canonical_row(181).len() == 16);
        assert(prefix_ok(canonical_row(181), 9));
        assert(canonical_mask(181) != 0);
        assert(canonical_row(181)[0] != -1);
    }
    else if c == 182 {
        assert(canonical_row(182).len() == 16);
        assert(prefix_ok(canonical_row(182), 9));
        assert(canonical_mask(182) != 0);
        assert(canonical_row(182)[0] != -1);
    }
    else if c == 183 {
        assert(canonical_row(183).len() == 16);
        assert(prefix_ok(canonical_row(183), 6));
        assert(canonical_mask(183) != 0);
        assert(canonical_row(183)[0] != -1);
    }
    else if c == 184 {
        assert(canonical_row(184).len() == 16);
        assert(prefix_ok(canonical_row(184), 12));
        assert(canonical_mask(184) != 0);
        assert(canonical_row(184)[0] != -1);
    }
    else if c == 185 {
        assert(canonical_row(185).len() == 16);
        assert(prefix_ok(canonical_row(185), 9));
        assert(canonical_mask(185) != 0);
        assert(canonical_row(185)[0] != -1);
    }
    else if c == 186 {
        assert(canonical_row(186).len() == 16);
        assert(prefix_ok(canonical_row(186), 9));
        assert(canonical_mask(186) != 0);
        assert(canonical_row(186)[0] != -1);
    }
    else if c == 187 {
        assert(canonical_row(187).len() == 16);
        assert(prefix_ok(canonical_row(187), 6));
        assert(canonical_mask(187) != 0);
        assert(canonical_row(187)[0] != -1);
    }
    else if c == 188 {
        assert(canonical_row(188).len() == 16);
        assert(prefix_ok(canonical_row(188), 9));
        assert(canonical_mask(188) != 0);
        assert(canonical_row(188)[0] != -1);
    }
    else if c == 189 {
        assert(canonical_row(189).len() == 16);
        assert(prefix_ok(canonical_row(189), 6));
        assert(canonical_mask(189) != 0);
        assert(canonical_row(189)[0] != -1);
    }
    else if c == 190 {
        assert(canonical_row(190).len() == 16);
        assert(prefix_ok(canonical_row(190), 6));
        assert(canonical_mask(190) != 0);
        assert(canonical_row(190)[0] != -1);
    }
    else if c == 191 {
        assert(canonical_row(191).len() == 16);
        assert(prefix_ok(canonical_row(191), 3));
        assert(canonical_mask(191) != 0);
        assert(canonical_row(191)[0] != -1);
    }
}

proof fn lemma_canonical_block_12_ok(c: int)
    requires
        192 <= c < 208,
    ensures
        canonical_row(c).len() == 16,
        exists|s: int| prefix_ok(canonical_row(c), s),
        (canonical_mask(c) == 0) <==> (canonical_row(c)[0] == -1),
        (canonical_mask(c) == 0) <==> (c == 0 || c == 255),
{
    if c == 192 {
        assert(canonical_row(192).len() == 16);
        assert(prefix_ok(canonical_row(192), 6));
        assert(canonical_mask(192) != 0);
        assert(canonical_row(192)[0] != -1);
    }
    else if c == 193 {
        assert(canonical_row(193).len() == 16);
        assert(prefix_ok(canonical_row(193), 9));
        assert(canonical_mask(193) != 0);
        assert(canonical_row(193)[0] != -1);
    }
    else if c == 194 {
        assert(canonical_row(194).len() == 16);
        assert(prefix_ok(canonical_row(194), 9));
        assert(canonical_mask(194) != 0);
        assert(canonical_row(194)[0] != -1);
    }
    else if c == 195 {
        assert(canonical_row(195).len() == 16);
        assert(prefix_ok(canonical_row(195), 12));
        assert(canonical_mask(195) != 0);
        assert(canonical_row(195)[0] != -1);
    }
    else if c == 196 {
        assert(canonical_row(196).len() == 16);
        assert(prefix_ok(canonical_row(196), 9));
        assert(canonical_mask(196) != 0);
        assert(canonical_row(196)[0] != -1);
    }
    else if c == 197 {
        assert(canonical_row(197).len() == 16);
        assert(prefix_ok(canonical_row(197), 12));
        assert(canonical_mask(197) != 0);
        assert(canonical_row(197)[0] != -1);
    }
    else if c == 198 {
        assert(canonical_row(198).len() == 16);
        assert(prefix_ok(canonical_row(198), 12));
        assert(canonical_mask(198) != 0);
        assert(canonical_row(198)[0] != -1);
    }
    else if c == 199 {
        assert(canonical_row(199).len() == 16);
        assert(prefix_ok(canonical_row(199), 9));
        assert(canonical_mask(199) != 0);
        assert(canonical_row(199)[0] != -1);
    }
    else if c == 200 {
        assert(canonical_row(200).len() == 16);
        assert(prefix_ok(canonical_row(200), 9));
        assert(canonical_mask(200) != 0);
        assert(canonical_row(200)[0] != -1);
    }
    else if c == 201 {
        assert(canonical_row(201).len() == 16);
        assert(prefix_ok(canonical_row(201), 12));
        assert(canonical_mask(201) != 0);
        assert(canonical_row(201)[0] != -1);
    }
    else if c == 202 {
        assert(canonical_row(202).len() == 16);
        assert(prefix_ok(canonical_row(202), 12));
        assert(canonical_mask(202) != 0);
        assert(canonical_row(202)[0] != -1);
    }
    else if c == 203 {
        assert(canonical_row(203).len() == 16);
        assert(prefix_ok(canonical_row(203), 9));
        assert(canonical_mask(203) != 0);
        assert(canonical_row(203)[0] != -1);
    }
    else if c == 204 {
        assert(canonical_row(204).len() == 16);
        assert(prefix_ok(canonical_row(204), 6));
        assert(canonical_mask(204) != 0);
        assert(canonical_row(204)[0] != -1);
    }
    else if c == 205 {
        assert(canonical_row(205).len() == 16);
        assert(prefix_ok(canonical_row(205), 9));
        assert(canonical_mask(205) != 0);
        assert(canonical_row(205)[0] != -1);
    }
    else if c == 206 {
        assert(canonical_row(206).len() == 16);
        assert(prefix_ok(canonical_row(206), 9));
        assert(canonical_mask(206) != 0);
        assert(canonical_row(206)[0] != -1);
    }
    else if c == 207 {
        assert(canonical_row(207).len() == 16);
        assert(prefix_ok(canonical_row(207), 6));
        assert(canonical_mask(207) != 0);
        assert(canonical_row(207)[0] != -1);
    }
}

proof fn lemma_canonical_block_13_ok(c: int)
    requires
        208 <= c < 224,
    ensures
        canonical_row(c).len() == 16,
        exists|s: int| prefix_ok(canonical_row(c), s),
        (canonical_mask(c) == 0) <==> (canonical_row(c)[0] == -1),
        (canonical_mask(c) == 0) <==> (c == 0 || c == 255),
{
    if c == 208 {
        assert(canonical_row(208).len() == 16);
        assert(prefix_ok(canonical_row(208), 9));
        assert(canonical_mask(208) != 0);
        assert(canonical_row(208)[0] != -1);
    }
    else if c == 209 {
        assert(canonical_row(209).len() == 16);
        assert(prefix_ok(canonical_row(209), 12));
        assert(canonical_mask(209) != 0);
        assert(canonical_row(209)[0] != -1);
    }
    else if c == 210 {
        assert(canonical_row(210).len() == 16);
        assert(prefix_ok(canonical_row(210), 12));
        assert(canonical_mask(210) != 0);
        assert(canonical_row(210)[0] != -1);
    }
    else if c == 211 {
        assert(canonical_row(211).len() == 16);
        assert(prefix_ok(canonical_row(211), 9));
        assert(canonical_mask(211) != 0);
        assert(canonical_row(211)[0] != -1);
    }
    else if c == 212 {
        assert(canonical_row(212).len() == 16);
        assert(prefix_ok(canonical_row(212), 12));
        assert(canonical_mask(212) != 0);
        assert(canonical_row(212)[0] != -1);
    }
    else if c == 213 {
        assert(canonical_row(213).len() == 16);
        assert(prefix_ok(canonical_row(213), 9));
        assert(canonical_mask(213) != 0);
        assert(canonical_row(213)[0] != -1);
    }
    else if c == 214 {
        assert(canonical_row(214).len() == 16);
        assert(prefix_ok(canonical_row(214), 9));
        assert(canonical_mask(214) != 0);
        assert(canonical_row(214)[0] != -1);
    }
    else if c == 215 {
        assert(canonical_row(215).len() == 16);
        assert(prefix_ok(canonical_row(215), 6));
        assert(canonical_mask(215) != 0);
        assert(canonical_row(215)[0] != -1);
    }
    else if c == 216 {
        assert(canonical_row(216).len() == 16);
        assert(prefix_ok(canonical_row(216), 12));
        assert(canonical_mask(216) != 0);
        assert(canonical_row(216)[0] != -1);
    }
    else if c == 217 {
        assert(canonical_row(217).len() == 16);
        assert(prefix_ok(canonical_row(217), 9));
        assert(canonical_mask(217) != 0);
        assert(canonical_row(217)[0] != -1);
    }
    else if c == 218 {
        assert(canonical_row(218).len() == 16);
        assert(prefix_ok(canonical_row(218), 9));
        assert(canonical_mask(218) != 0);
        assert(canonical_row(218)[0] != -1);
    }
    else if c == 219 {
        assert(canonical_row(219).len() == 16);
        assert(prefix_ok(canonical_row(219), 6));
        assert(canonical_mask(219) != 0);
        assert(canonical_row(219)[0] != -1);
    }
    else if c == 220 {
        assert(canonical_row(220).len() == 16);
        assert(prefix_ok(canonical_row(220), 9));
        assert(canonical_mask(220) != 0);
        assert(canonical_row(220)[0] != -1);
    }
    else if c == 221 {
        assert(canonical_row(221).len() == 16);
        assert(prefix_ok(canonical_row(221), 6));
        assert(canonical_mask(221) != 0);
        assert(canonical_row(221)[0] != -1);
    }
    else if c == 222 {
        assert(canonical_row(222).len() == 16);
        assert(prefix_ok(canonical_row(222), 6));
        assert(canonical_mask(222) != 0);
        assert(canonical_row(222)[0] != -1);
    }
    else if c == 223 {
        assert(canonical_row(223).len() == 16);
        assert(prefix_ok(canonical_row(223), 3));
        assert(canonical_mask(223) != 0);
        assert(canonical_row(223)[0] != -1);
    }
}

proof fn lemma_canonical_block_14_ok(c: int)
    requires
        224 <= c < 240,
    ensures
        canonical_row(c).len() == 16,
        exists|s: int| prefix_ok(canonical_row(c), s),
        (canonical_mask(c) == 0) <==> (canonical_row(c)[0] == -1),
        (canonical_mask(c) == 0) <==> (c == 0 || c == 255),
{
    if c == 224 {
        assert(canonical_row(224).len() == 16);
        assert(prefix_ok(canonical_row(224), 9));
        assert(canonical_mask(224) != 0);
        assert(canonical_row(224)[0] != -1);
    }
    else if c == 225 {
        assert(canonical_row(225).len() == 16);
        assert(prefix_ok(canonical_row(225), 12));
        assert(canonical_mask(225) != 0);
        assert(canonical_row(225)[0] != -1);
    }
    else if c == 226 {
        assert(canonical_row(226).len() == 16);
        assert(prefix_ok(canonical_row(226), 12));
        assert(canonical_mask(226) != 0);
        assert(canonical_row(226)[0] != -1);
    }
    else if c == 227 {
        assert(canonical_row(227).len() == 16);
        assert(prefix_ok(canonical_row(227), 9));
        assert(canonical_mask(227) != 0);
        assert(canonical_row(227)[0] != -1);
    }
    else if c == 228 {
        assert(canonical_row(228).len() == 16);
        assert(prefix_ok(canonical_row(228), 12));
        assert(canonical_mask(228) != 0);
        assert(canonical_row(228)[0] != -1);
    }
    else if c == 229 {
        assert(canonical_row(229).len() == 16);
        assert(prefix_ok(canonical_row(229), 9));
        assert(canonical_mask(229) != 0);
        assert(canonical_row(229)[0] != -1);
    }
    else if c == 230 {
        assert(canonical_row(230).len() == 16);
        assert(prefix_ok(canonical_row(230), 9));
        assert(canonical_mask(230) != 0);
        assert(canonical_row(230)[0] != -1);
    }
    else if c == 231 {
        assert(canonical_row(231).len() == 16);
        assert(prefix_ok(canonical_row(231), 6));
        assert(canonical_mask(231) != 0);
        assert(canonical_row(231)[0] != -1);
    }
    else if c == 232 {
        assert(canonical_row(232).len() == 16);
        assert(prefix_ok(canonical_row(232), 12));
        assert(canonical_mask(232) != 0);
        assert(canonical_row(232)[0] != -1);
    }
    else if c == 233 {
        assert(canonical_row(233).len() == 16);
        assert(prefix_ok(canonical_row(233), 9));
        assert(canonical_mask(233) != 0);
        assert(canonical_row(233)[0] != -1);
    }
    else if c == 234 {
        assert(canonical_row(234).len() == 16);
        assert(prefix_ok(canonical_row(234), 9));
        assert(canonical_mask(234) != 0);
        assert(canonical_row(234)[0] != -1);
    }
    else if c == 235 {
        assert(canonical_row(235).len() == 16);
        assert(prefix_ok(canonical_row(235), 6));
        assert(canonical_mask(235) != 0);
        assert(canonical_row(235)[0] != -1);
    }
    else if c == 236 {
        assert(canonical_row(236).len() == 16);
        assert(prefix_ok(canonical_row(236), 9));
        assert(canonical_mask(236) != 0);
        assert(canonical_row(236)[0] != -1);
    }
    else if c == 237 {
        assert(canonical_row(237).len() == 16);
        assert(prefix_ok(canonical_row(237), 6));
        assert(canonical_mask(237) != 0);
        assert(canonical_row(237)[0] != -1);
    }
    else if c == 238 {
        assert(canonical_row(238).len() == 16);
        assert(prefix_ok(canonical_row(238), 6));
        assert(canonical_mask(238) != 0);
        assert(canonical_row(238)[0] != -1);
    }
    else if c == 239 {
        assert(canonical_row(239).len() == 16);
        assert(prefix_ok(canonical_row(239), 3));
        assert(canonical_mask(239) != 0);
        assert(canonical_row(239)[0] != -1);
    }
}

proof fn lemma_canonical_block_15_ok(c: int)
    requires
        240 <= c < 256,
    ensures
        canonical_row(c).len() == 16,
        exists|s: int| prefix_ok(canonical_row(c), s),
        (canonical_mask(c) == 0) <==> (canonical_row(c)[0] == -1),
        (canonical_mask(c) == 0) <==> (c == 0 || c == 255),
{
    if c == 240 {
        assert(canonical_row(240).len() == 16);
        assert(prefix_ok(canonical_row(240), 6));
        assert(canonical_mask(240) != 0);
        assert(canonical_row(240)[0] != -1);
    }
    else if c == 241 {
        assert(canonical_row(241).len() == 16);
        assert(prefix_ok(canonical_row(241), 9));
        assert(canonical_mask(241) != 0);
        assert(canonical_row(241)[0] != -1);
    }
    else if c == 242 {
        assert(canonical_row(242).len() == 16);
        assert(prefix_ok(canonical_row(242), 9));
        assert(canonical_mask(242) != 0);
        assert(canonical_row(242)[0] != -1);
    }
    else if c == 243 {
        assert(canonical_row(243).len() == 16);
        assert(prefix_ok(canonical_row(243), 6));
        assert(canonical_mask(243) != 0);
        assert(canonical_row(243)[0] != -1);
    }
    else if c == 244 {
        assert(canonical_row(244).len() == 16);
        assert(prefix_ok(canonical_row(244), 9));
        assert(canonical_mask(244) != 0);
        assert(canonical_row(244)[0] != -1);
    }
    else if c == 245 {
        assert(canonical_row(245).len() == 16);
        assert(prefix_ok(canonical_row(245), 6));
        assert(canonical_mask(245) != 0);
        assert(canonical_row(245)[0] != -1);
    }
    else if c == 246 {
        assert(canonical_row(246).len() == 16);
        assert(prefix_ok(canonical_row(246), 6));
        assert(canonical_mask(246) != 0);
        assert(canonical_row(246)[0] != -1);
    }
    else if c == 247 {
        assert(canonical_row(247).len() == 16);
        assert(prefix_ok(canonical_row(247), 3));
        assert(canonical_mask(247) != 0);
        assert(canonical_row(247)[0] != -1);
    }
    else if c == 248 {
        assert(canonical_row(248).len() == 16);
        assert(prefix_ok(canonical_row(248), 9));
        assert(canonical_mask(248) != 0);
        assert(canonical_row(248)[0] != -1);
    }
    else if c == 249 {
        assert(canonical_row(249).len() == 16);
        assert(prefix_ok(canonical_row(249), 6));
        assert(canonical_mask(249) != 0);
        assert(canonical_row(249)[0] != -1);
    }
    else if c == 250 {
        assert(canonical_row(250).len() == 16);
        assert(prefix_ok(canonical_row(250), 6));
        assert(canonical_mask(250) != 0);
        assert(canonical_row(250)[0] != -1);
    }
    else if c == 251 {
        assert(canonical_row(251).len() == 16);
        assert(prefix_ok(canonical_row(251), 3));
        assert(canonical_mask(251) != 0);
        assert(canonical_row(251)[0] != -1);
    }
    else if c == 252 {
        assert(canonical_row(252).len() == 16);
        assert(prefix_ok(canonical_row(252), 6));
        assert(canonical_mask(252) != 0);
        assert(canonical_row(252)[0] != -1);
    }
    else if c == 253 {
        assert(canonical_row(253).len() == 16);
        assert(prefix_ok(canonical_row(253), 3));
        assert(canonical_mask(253) != 0);
        assert(canonical_row(253)[0] != -1);
    }
    else if c == 254 {
        assert(canonical_row(254).len() == 16);
        assert(prefix_ok(canonical_row(254), 3));
        assert(canonical_mask(254) != 0);
        assert(canonical_row(254)[0] != -1);
    }
    else if c == 255 {
        assert(canonical_row(255).len() == 16);
        assert(prefix_ok(canonical_row(255), 0));
        assert(canonical_mask(255) == 0);
        assert(canonical_row(255)[0] == -1);
    }
}

/// Per-configuration facts of the canonical data: the row is a full,
/// well-formed 16-entry row, and its edge mask vanishes exactly when the
/// row is empty, which happens exactly at configurations 0 and 255.
pub proof fn lemma_canonical_config_ok(c: int)
    requires
        0 <= c < 256,
    ensures
        canonical_row(c).len() == 16,
        exists|s: int| prefix_ok(canonical_row(c), s),
        (canonical_mask(c) == 0) <==> (canonical_row(c)[0] == -1),
        (canonical_mask(c) == 0) <==> (c == 0 || c == 255),
{
    if c < 16 {
        lemma_canonical_block_0_ok(c);
    }
    else if c < 32 {
        lemma_canonical_block_1_ok(c);
    }
    else if c < 48 {
        lemma_canonical_block_2_ok(c);
    }
    else if c < 64 {
        lemma_canonical_block_3_ok(c);
    }
    else if c < 80 {
        lemma_canonical_block_4_ok(c);
    }
    else if c < 96 {
        lemma_canonical_block_5_ok(c);
    }
    else if c < 112 {
        lemma_canonical_block_6_ok(c);
    }
    else if c < 128 {
        lemma_canonical_block_7_ok(c);
    }
    else if c < 144 {
        lemma_canonical_block_8_ok(c);
    }
    else if c < 160 {
        lemma_canonical_block_9_ok(c);
    }
    else if c < 176 {
        lemma_canonical_block_10_ok(c);
    }
    else if c < 192 {
        lemma_canonical_block_11_ok(c);
    }
    else if c < 208 {
        lemma_canonical_block_12_ok(c);
    }
    else if c < 224 {
        lemma_canonical_block_13_ok(c);
    }
    else if c < 240 {
        lemma_canonical_block_14_ok(c);
    }
    else if c < 256 {
        lemma_canonical_block_15_ok(c);
    }
}

fn canonical_masks_data_0(c: usize) -> (m: u32)
    requires
        0 <= c < 16,
    ensures
        m == canonical_mask(c as int),
{
    if c == 0 {
        0x000
    }
    else if c == 1 {
        0x109
    }
    else if c == 2 {
        0x203
    }
    else if c == 3 {
        0x30a
    }
    else if c == 4 {
        0x406
    }
    else if c == 5 {
        0x50f
    }
    else if c == 6 {
        0x605
    }
    else if c == 7 {
        0x70c
    }
    else if c == 8 {
        0x80c
    }
    else if c == 9 {
        0x905
    }
    else if c == 10 {
        0xa0f
    }
    else if c == 11 {
        0xb06
    }
    else if c == 12 {
        0xc0a
    }
    else if c == 13 {
        0xd03
    }
    else if c == 14 {
        0xe09
    }
    else {
        0xf00
    }
}

fn canonical_masks_data_1(c: usize) -> (m: u32)
    requires
        16 <= c < 32,
    ensures
        m == canonical_mask(c as int),
{
    if c == 16 {
        0x190
    }
    else if c == 17 {
        0x099
    }
    else if c == 18 {
        0x393
    }
    else if c == 19 {
        0x29a
    }
    else if c == 20 {
        0x596
    }
    else if c == 21 {
        0x49f
    }
    else if c == 22 {
        0x795
    }
    else if c == 23 {
        0x69c
    }
    else if c == 24 {
        0x99c
    }
    else if c == 25 {
        0x895
    }
    else if c == 26 {
        0xb9f
    }
    else if c == 27 {
        0xa96
    }
    else if c == 28 {
        0xd9a
    }
    else if c == 29 {
        0xc93
    }
    else if c == 30 {
        0xf99
    }
    else {
        0xe90
    }
}

fn canonical_masks_data_2(c: usize) -> (m: u32)
    requires
        32 <= c < 48,
    ensures
        m == canonical_mask(c as int),
{
    if c == 32 {
        0x230
    }
    else if c == 33 {
        0x339
    }
    else if c == 34 {
        0x033
    }
    else if c == 35 {
        0x13a
    }
    else if c == 36 {
        0x636
    }
    else if c == 37 {
        0x73f
    }
    else if c == 38 {
        0x435
    }
    else if c == 39 {
        0x53c
    }
    else if c == 40 {
        0xa3c
    }
    else if c == 41 {
        0xb35
    }
    else if c == 42 {
        0x83f
    }
    else if c == 43 {
        0x936
    }
    else if c == 44 {
        0xe3a
    }
    else if c == 45 {
        0xf33
    }
    else if c == 46 {
        0xc39
    }
    else {
        0xd30
    }
}

fn canonical_masks_data_3(c: usize) -> (m: u32)
    requires
        48 <= c < 64,
    ensures
        m == canonical_mask(c as int),
{
    if c == 48 {
        0x3a0
    }
    else if c == 49 {
        0x2a9
    }
    else if c == 50 {
        0x1a3
    }
    else if c == 51 {
        0x0aa
    }
    else if c == 52 {
        0x7a6
    }
    else if c == 53 {
        0x6af
    }
    else if c == 54 {
        0x5a5
    }
    else if c == 55 {
        0x4ac
    }
    else if c == 56 {
        0xbac
    }
    else if c == 57 {
        0xaa5
    }
    else if c == 58 {
        0x9af
    }
    else if c == 59 {
        0x8a6
    }
    else if c == 60 {
        0xfaa
    }
    else if c == 61 {
        0xea3
    }
    else if c == 62 {
        0xda9
    }
    else {
        0xca0
    }
}

fn canonical_masks_data_4(c: usize) -> (m: u32)
    requires
        64 <= c < 80,
    ensures
        m == canonical_mask(c as int),
{
    if c == 64 {
        0x460
    }
    else if c == 65 {
        0x569
    }
    else if c == 66 {
        0x663
    }
    else if c == 67 {
        0x76a
    }
    else if c == 68 {
        0x066
    }
    else if c == 69 {
        0x16f
    }
    else if c == 70 {
        0x265
    }
    else if c == 71 {
        0x36c
    }
    else if c == 72 {
        0xc6c
    }
    else if c == 73 {
        0xd65
    }
    else if c == 74 {
        0xe6f
    }
    else if c == 75 {
        0xf66
    }
    else if c == 76 {
        0x86a
    }
    else if c == 77 {
        0x963
    }
    else if c == 78 {
        0xa69
    }
    else {
        0xb60
    }
}

fn canonical_masks_data_5(c: usize) -> (m: u32)
    requires
        80 <= c < 96,
    ensures
        m == canonical_mask(c as int),
{
    if c == 80 {
        0x5f0
    }
    else if c == 81 {
        0x4f9
    }
    else if c == 82 {
        0x7f3
    }
    else if c == 83 {
        0x6fa
    }
    else if c == 84 {
        0x1f6
    }
    else if c == 85 {
        0x0ff
    }
    else if c == 86 {
        0x3f5
    }
    else if c == 87 {
        0x2fc
    }
    else if c == 88 {
        0xdfc
    }
    else if c == 89 {
        0xcf5
    }
    else if c == 90 {
        0xfff
    }
    else if c == 91 {
        0xef6
    }
    else if c == 92 {
        0x9fa
    }
    else if c == 93 {
        0x8f3
    }
    else if c == 94 {
        0xbf9
    }
    else {
        0xaf0
    }
}

fn canonical_masks_data_6(c: usize) -> (m: u32)
    requires
        96 <= c < 112,
    ensures
        m == canonical_mask(c as int),
{
    if c == 96 {
        0x650
    }
    else if c == 97 {
        0x759
    }
    else if c == 98 {
        0x453
    }
    else if c == 99 {
        0x55a
    }
    else if c == 100 {
        0x256
    }
    else if c == 101 {
        0x35f
    }
    else if c == 102 {
        0x055
    }
    else if c == 103 {
        0x15c
    }
    else if c == 104 {
        0xe5c
    }
    else if c == 105 {
        0xf55
    }
    else if c == 106 {
        0xc5f
    }
    else if c == 107 {
        0xd56
    }
    else if c == 108 {
        0xa5a
    }
    else if c == 109 {
        0xb53
    }
    else if c == 110 {
        0x859
    }
    else {
        0x950
    }
}

fn canonical_masks_data_7(c: usize) -> (m: u32)
    requires
        112 <= c < 128,
    ensures
        m == canonical_mask(c as int),
{
    if c == 112 {
        0x7c0
    }
    else if c == 113 {
        0x6c9
    }
    else if c == 114 {
        0x5c3
    }
    else if c == 115 {
        0x4ca
    }
    else if c == 116 {
        0x3c6
    }
    else if c == 117 {
        0x2cf
    }
    else if c == 118 {
        0x1c5
    }
    else if c == 119 {
        0x0cc
    }
    else if c == 120 {
        0xfcc
    }
    else if c == 121 {
        0xec5
    }
    else if c == 122 {
        0xdcf
    }
    else if c == 123 {
        0xcc6
    }
    else if c == 124 {
        0xbca
    }
    else if c == 125 {
        0xac3
    }
    else if c == 126 {
        0x9c9
    }
    else {
        0x8c0
    }
}

fn canonical_masks_data_8(c: usize) -> (m: u32)
    requires
        128 <= c < 144,
    ensures
        m == canonical_mask(c as int),
{
    if c == 128 {
        0x8c0
    }
    else if c == 129 {
        0x9c9
    }
    else if c == 130 {
        0xac3
    }
    else if c == 131 {
        0xbca
    }
    else if c == 132 {
        0xcc6
    }
    else if c == 133 {
        0xdcf
    }
    else if c == 134 {
        0xec5
    }
    else if c == 135 {
        0xfcc
    }
    else if c == 136 {
        0x0cc
    }
    else if c == 137 {
        0x1c5
    }
    else if c == 138 {
        0x2cf
    }
    else if c == 139 {
        0x3c6
    }
    else if c == 140 {
        0x4ca
    }
    else if c == 141 {
        0x5c3
    }
    else if c == 142 {
        0x6c9
    }
    else {
        0x7c0
    }
}

fn canonical_masks_data_9(c: usize) -> (m: u32)
    requires
        144 <= c < 160,
    ensures
        m == canonical_mask(c as int),
{
    if c == 144 {
        0x950
    }
    else if c == 145 {
        0x859
    }
    else if c == 146 {
        0xb53
    }
    else if c == 147 {
        0xa5a
    }
    else if c == 148 {
        0xd56
    }
    else if c == 149 {
        0xc5f
    }
    else if c == 150 {
        0xf55
    }
    else if c == 151 {
        0xe5c
    }
    else if c == 152 {
        0x15c
    }
    else if c == 153 {
        0x055
    }
    else if c == 154 {
        0x35f
    }
    else if c == 155 {
        0x256
    }
    else if c == 156 {
        0x55a
    }
    else if c == 157 {
        0x453
    }
    else if c == 158 {
        0x759
    }
    else {
        0x650
    }
}

fn canonical_masks_data_10(c: usize) -> (m: u32)
    requires
        160 <= c < 176,
    ensures
        m == canonical_mask(c as int),
{
    if c == 160 {
        0xaf0
    }
    else if c == 161 {
        0xbf9
    }
    else if c == 162 {
        0x8f3
    }
    else if c == 163 {
        0x9fa
    }
    else if c == 164 {
        0xef6
    }
    else if c == 165 {
        0xfff
    }
    else if c == 166 {
        0xcf5
    }
    else if c == 167 {
        0xdfc
    }
    else if c == 168 {
        0x2fc
    }
    else if c == 169 {
        0x3f5
    }
    else if c == 170 {
        0x0ff
    }
    else if c == 171 {
        0x1f6
    }
    else if c == 172 {
        0x6fa
    }
    else if c == 173 {
        0x7f3
    }
    else if c == 174 {
        0x4f9
    }
    else {
        0x5f0
    }
}

fn canonical_masks_data_11(c: usize) -> (m: u32)
    requires
        176 <= c < 192,
    ensures
        m == canonical_mask(c as int),
{
    if c == 176 {
        0xb60
    }
    else if c == 177 {
        0xa69
    }
    else if c == 178 {
        0x963
    }
    else if c == 179 {
        0x86a
    }
    else if c == 180 {
        0xf66
    }
    else if c == 181 {
        0xe6f
    }
    else if c == 182 {
        0xd65
    }
    else if c == 183 {
        0xc6c
    }
    else if c == 184 {
        0x36c
    }
    else if c == 185 {
        0x265
    }
    else if c == 186 {
        0x16f
    }
    else if c == 187 {
        0x066
    }
    else if c == 188 {
        0x76a
    }
    else if c == 189 {
        0x663
    }
    else if c == 190 {
        0x569
    }
    else {
        0x460
    }
}

fn canonical_masks_data_12(c: usize) -> (m: u32)
    requires
        192 <= c < 208,
    ensures
        m == canonical_mask(c as int),
{
    if c == 192 {
        0xca0
    }
    else if c == 193 {
        0xda9
    }
    else if c == 194 {
        0xea3
    }
    else if c == 195 {
        0xfaa
    }
    else if c == 196 {
        0x8a6
    }
    else if c == 197 {
        0x9af
    }
    else if c == 198 {
        0xaa5
    }
    else if c == 199 {
        0xbac
    }
    else if c == 200 {
        0x4ac
    }
    else if c == 201 {
        0x5a5
    }
    else if c == 202 {
        0x6af
    }
    else if c == 203 {
        0x7a6
    }
    else if c == 204 {
        0x0aa
    }
    else if c == 205 {
        0x1a3
    }
    else if c == 206 {
        0x2a9
    }
    else {
        0x3a0
    }
}

fn canonical_masks_data_13(c: usize) -> (m: u32)
    requires
        208 <= c < 224,
    ensures
        m == canonical_mask(c as int),
{
    if c == 208 {
        0xd30
    }
    else if c == 209 {
        0xc39
    }
    else if c == 210 {
        0xf33
    }
    else if c == 211 {
        0xe3a
    }
    else if c == 212 {
        0x936
    }
    else if c == 213 {
        0x83f
    }
    else if c == 214 {
        0xb35
    }
    else if c == 215 {
        0xa3c
    }
    else if c == 216 {
        0x53c
    }
    else if c == 217 {
        0x435
    }
    else if c == 218 {
        0x73f
    }
    else if c == 219 {
        0x636
    }
    else if c == 220 {
        0x13a
    }
    else if c == 221 {
        0x033
    }
    else if c == 222 {
        0x339
    }
    else {
        0x230
    }
}

fn canonical_masks_data_14(c: usize) -> (m: u32)
    requires
        224 <= c < 240,
    ensures
        m == canonical_mask(c as int),
{
    if c == 224 {
        0xe90
    }
    else if c == 225 {
        0xf99
    }
    else if c == 226 {
        0xc93
    }
    else if c == 227 {
        0xd9a
    }
    else if c == 228 {
        0xa96
    }
    else if c == 229 {
        0xb9f
    }
    else if c == 230 {
        0x895
    }
    else if c == 231 {
        0x99c
    }
    else if c == 232 {
        0x69c
    }
    else if c == 233 {
        0x795
    }
    else if c == 234 {
        0x49f
    }
    else if c == 235 {
        0x596
    }
    else if c == 236 {
        0x29a
    }
    else if c == 237 {
        0x393
    }
    else if c == 238 {
        0x099
    }
    else {
        0x190
    }
}

fn canonical_masks_data_15(c: usize) -> (m: u32)
    requires
        240 <= c < 256,
    ensures
        m == canonical_mask(c as int),
{
    if c == 240 {
        0xf00
    }
    else if c == 241 {
        0xe09
    }
    else if c == 242 {
        0xd03
    }
    else if c == 243 {
        0xc0a
    }
    else if c == 244 {
        0xb06
    }
    else if c == 245 {
        0xa0f
    }
    else if c == 246 {
        0x905
    }
    else if c == 247 {
        0x80c
    }
    else if c == 248 {
        0x70c
    }
    else if c == 249 {
        0x605
    }
    else if c == 250 {
        0x50f
    }
    else if c == 251 {
        0x406
    }
    else if c == 252 {
        0x30a
    }
    else if c == 253 {
        0x203
    }
    else if c == 254 {
        0x109
    }
    else {
        0x000
    }
}

/// The canonical edge mask of configuration `c`, as a runtime value.
pub fn canonical_mask_value(c: usize) -> (m: u32)
    requires
        c < 256,
    ensures
        m == canonical_mask(c as int),
{
    if c < 16 {
        canonical_masks_data_0(c)
    }
    else if c < 32 {
        canonical_masks_data_1(c)
    }
    else if c < 48 {
        canonical_masks_data_2(c)
    }
    else if c < 64 {
        canonical_masks_data_3(c)
    }
    else if c < 80 {
        canonical_masks_data_4(c)
    }
    else if c < 96 {
        canonical_masks_data_5(c)
    }
    else if c < 112 {
        canonical_masks_data_6(c)
    }
    else if c < 128 {
        canonical_masks_data_7(c)
    }
    else if c < 144 {
        canonical_masks_data_8(c)
    }
    else if c < 160 {
        canonical_masks_data_9(c)
    }
    else if c < 176 {
        canonical_masks_data_10(c)
    }
    else if c < 192 {
        canonical_masks_data_11(c)
    }
    else if c < 208 {
        canonical_masks_data_12(c)
    }
    else if c < 224 {
        canonical_masks_data_13(c)
    }
    else if c < 240 {
        canonical_masks_data_14(c)
    }
    else {
        canonical_masks_data_15(c)
    }
}

fn canonical_rows_data_0(c: usize) -> (r: [i8; 16])
    requires
        0 <= c < 16,
    ensures
        r@ == canonical_row(c as int),
{
    if c == 0 {
        let a: [i8; 16] = [-1i8, -1, -1, -1, -1, -1, -1, -1, -1, -1, -1, -1, -1, -1, -1, -1];
        proof {
            assert(a@ =~= canonical_row(0));
        }
        a
    }
    else if c == 1 {
        let a: [i8; 16] = [0i8, 3, 8, -1, -1, -1, -1, -1, -1, -1, -1, -1, -1, -1, -1, -1];
        proof {
            assert(a@ =~= canonical_row(1));
        }
        a
    }
    else if c == 2 {
        let a: [i8; 16] = [0i8, 9, 1, -1, -1, -1, -1, -1, -1, -1, -1, -1, -1, -1, -1, -1];
        proof {
            assert(a@ =~= canonical_row(2));
        }
        a
    }
    else if c == 3 {
        let a: [i8; 16] = [3i8, 8, 1, 1, 8, 9, -1, -1, -1, -1, -1, -1, -1, -1, -1, -1];
        proof {
            assert(a@ =~= canonical_row(3));
        }
        a
    }
    else if c == 4 {
        let a: [i8; 16] = [2i8, 11, 3, -1, -1, -1, -1, -1, -1, -1, -1, -1, -1, -1, -1, -1];
        proof {
            assert(a@ =~= canonical_row(4));
        }
        a
    }
    else if c == 5 {
        let a: [i8; 16] = [8i8, 0, 11, 11, 0, 2, -1, -1, -1, -1, -1, -1, -1, -1, -1, -1];
        proof {
            assert(a@ =~= canonical_row(5));
        }
        a
    }
    else if c == 6 {
        let a: [i8; 16] = [3i8, 2, 11, 1, 0, 9, -1, -1, -1, -1, -1, -1, -1, -1, -1, -1];
        proof {
            assert(a@ =~= canonical_row(6));
        }
        a
    }
    else if c == 7 {
        let a: [i8; 16] = [11i8, 1, 2, 11, 9, 1, 11, 8, 9, -1, -1, -1, -1, -1, -1, -1];
        proof {
            assert(a@ =~= canonical_row(7));
        }
        a
    }
    else if c == 8 {
        let a: [i8; 16] = [1i8, 10, 2, -1, -1, -1, -1, -1, -1, -1, -1, -1, -1, -1, -1, -1];
        proof {
            assert(a@ =~= canonical_row(8));
        }
        a
    }
    else if c == 9 {
        let a: [i8; 16] = [0i8, 3, 8, 2, 1, 10, -1, -1, -1, -1, -1, -1, -1, -1, -1, -1];
        proof {
            assert(a@ =~= canonical_row(9));
        }
        a
    }
    else if c == 10 {
        let a: [i8; 16] = [10i8, 2, 9, 9, 2, 0, -1, -1, -1, -1, -1, -1, -1, -1, -1, -1];
        proof {
            assert(a@ =~= canonical_row(10));
        }
        a
    }
    else if c == 11 {
        let a: [i8; 16] = [8i8, 2, 3, 8, 10, 2, 8, 9, 10, -1, -1, -1, -1, -1, -1, -1];
        proof {
            assert(a@ =~= canonical_row(11));
        }
        a
    }
    else if c == 12 {
        let a: [i8; 16] = [11i8, 3, 10, 10, 3, 1, -1, -1, -1, -1, -1, -1, -1, -1, -1, -1];
        proof {
            assert(a@ =~= canonical_row(12));
        }
        a
    }
    else if c == 13 {
        let a: [i8; 16] = [10i8, 0, 1, 10, 8, 0, 10, 11, 8, -1, -1, -1, -1, -1, -1, -1];
        proof {
            assert(a@ =~= canonical_row(13));
        }
        a
    }
    else if c == 14 {
        let a: [i8; 16] = [9i8, 3, 0, 9, 11, 3, 9, 10, 11, -1, -1, -1, -1, -1, -1, -1];
        proof {
            assert(a@ =~= canonical_row(14));
        }
        a
    }
    else {
        let a: [i8; 16] = [8i8, 9, 11, 11, 9, 10, -1, -1, -1, -1, -1, -1, -1, -1, -1, -1];
        proof {
            assert(a@ =~= canonical_row(15));
        }
        a
    }
}

fn canonical_rows_data_1(c: usize) -> (r: [i8; 16])
    requires
        16 <= c < 32,
    ensures
        r@ == canonical_row(c as int),
{
    if c == 16 {
        let a: [i8; 16] = [4i8, 8, 7, -1, -1, -1, -1, -1, -1, -1, -1, -1, -1, -1, -1, -1];
        proof {
            assert(a@ =~= canonical_row(16));
        }
        a
    }
    else if c == 17 {
        let a: [i8; 16] = [7i8, 4, 3, 3, 4, 0, -1, -1, -1, -1, -1, -1, -1, -1, -1, -1];
        proof {
            assert(a@ =~= canonical_row(17));
        }
        a
    }
    else if c == 18 {
        let a: [i8; 16] = [4i8, 8, 7, 0, 9, 1, -1, -1, -1, -1, -1, -1, -1, -1, -1, -1];
        proof {
            assert(a@ =~= canonical_row(18));
        }
        a
    }
    else if c == 19 {
        let a: [i8; 16] = [1i8, 4, 9, 1, 7, 4, 1, 3, 7, -1, -1, -1, -1, -1, -1, -1];
        proof {
            assert(a@ =~= canonical_row(19));
        }
        a
    }
    else if c == 20 {
        let a: [i8; 16] = [8i8, 7, 4, 11, 3, 2, -1, -1, -1, -1, -1, -1, -1, -1, -1, -1];
        proof {
            assert(a@ =~= canonical_row(20));
        }
        a
    }
    else if c == 21 {
        let a: [i8; 16] = [4i8, 11, 7, 4, 2, 11, 4, 0, 2, -1, -1, -1, -1, -1, -1, -1];
        proof {
            assert(a@ =~= canonical_row(21));
        }
        a
    }
    else if c == 22 {
        let a: [i8; 16] = [0i8, 9, 1, 8, 7, 4, 11, 3, 2, -1, -1, -1, -1, -1, -1, -1];
        proof {
            assert(a@ =~= canonical_row(22));
        }
        a
    }
    else if c == 23 {
        let a: [i8; 16] = [7i8, 4, 11, 11, 4, 2, 2, 4, 9, 2, 9, 1, -1, -1, -1, -1];
        proof {
            assert(a@ =~= canonical_row(23));
        }
        a
    }
    else if c == 24 {
        let a: [i8; 16] = [4i8, 8, 7, 2, 1, 10, -1, -1, -1, -1, -1, -1, -1, -1, -1, -1];
        proof {
            assert(a@ =~= canonical_row(24));
        }
        a
    }
    else if c == 25 {
        let a: [i8; 16] = [7i8, 4, 3, 3, 4, 0, 10, 2, 1, -1, -1, -1, -1, -1, -1, -1];
        proof {
            assert(a@ =~= canonical_row(25));
        }
        a
    }
    else if c == 26 {
        let a: [i8; 16] = [10i8, 2, 9, 9, 2, 0, 7, 4, 8, -1, -1, -1, -1, -1, -1, -1];
        proof {
            assert(a@ =~= canonical_row(26));
        }
        a
    }
    else if c == 27 {
        let a: [i8; 16] = [10i8, 2, 3, 10, 3, 4, 3, 7, 4, 9, 10, 4, -1, -1, -1, -1];
        proof {
            assert(a@ =~= canonical_row(27));
        }
        a
    }
    else if c == 28 {
        let a: [i8; 16] = [1i8, 10, 3, 3, 10, 11, 4, 8, 7, -1, -1, -1, -1, -1, -1, -1];
        proof {
            assert(a@ =~= canonical_row(28));
        }
        a
    }
    else if c == 29 {
        let a: [i8; 16] = [10i8, 11, 1, 11, 7, 4, 1, 11, 4, 1, 4, 0, -1, -1, -1, -1];
        proof {
            assert(a@ =~= canonical_row(29));
        }
        a
    }
    else if c == 30 {
        let a: [i8; 16] = [7i8, 4, 8, 9, 3, 0, 9, 11, 3, 9, 10, 11, -1, -1, -1, -1];
        proof {
            assert(a@ =~= canonical_row(30));
        }
        a
    }
    else {
        let a: [i8; 16] = [7i8, 4, 11, 4, 9, 11, 9, 10, 11, -1, -1, -1, -1, -1, -1, -1];
        proof {
            assert(a@ =~= canonical_row(31));
        }
        a
    }
}

fn canonical_rows_data_2(c: usize) -> (r: [i8; 16])
    requires
        32 <= c < 48,
    ensures
        r@ == canonical_row(c as int),
{
    if c == 32 {
        let a: [i8; 16] = [9i8, 4, 5, -1, -1, -1, -1, -1, -1, -1, -1, -1, -1, -1, -1, -1];
        proof {
            assert(a@ =~= canonical_row(32));
        }
        a
    }
    else if c == 33 {
        let a: [i8; 16] = [9i8, 4, 5, 8, 0, 3, -1, -1, -1, -1, -1, -1, -1, -1, -1, -1];
        proof {
            assert(a@ =~= canonical_row(33));
        }
        a
    }
    else if c == 34 {
        let a: [i8; 16] = [4i8, 5, 0, 0, 5, 1, -1, -1, -1, -1, -1, -1, -1, -1, -1, -1];
        proof {
            assert(a@ =~= canonical_row(34));
        }
        a
    }
    else if c == 35 {
        let a: [i8; 16] = [5i8, 8, 4, 5, 3, 8, 5, 1, 3, -1, -1, -1, -1, -1, -1, -1];
        proof {
            assert(a@ =~= canonical_row(35));
        }
        a
    }
    else if c == 36 {
        let a: [i8; 16] = [9i8, 4, 5, 11, 3, 2, -1, -1, -1, -1, -1, -1, -1, -1, -1, -1];
        proof {
            assert(a@ =~= canonical_row(36));
        }
        a
    }
    else if c == 37 {
        let a: [i8; 16] = [2i8, 11, 0, 0, 11, 8, 5, 9, 4, -1, -1, -1, -1, -1, -1, -1];
        proof {
            assert(a@ =~= canonical_row(37));
        }
        a
    }
    else if c == 38 {
        let a: [i8; 16] = [4i8, 5, 0, 0, 5, 1, 11, 3, 2, -1, -1, -1, -1, -1, -1, -1];
        proof {
            assert(a@ =~= canonical_row(38));
        }
        a
    }
    else if c == 39 {
        let a: [i8; 16] = [5i8, 1, 4, 1, 2, 11, 4, 1, 11, 4, 11, 8, -1, -1, -1, -1];
        proof {
            assert(a@ =~= canonical_row(39));
        }
        a
    }
    else if c == 40 {
        let a: [i8; 16] = [1i8, 10, 2, 5, 9, 4, -1, -1, -1, -1, -1, -1, -1, -1, -1, -1];
        proof {
            assert(a@ =~= canonical_row(40));
        }
        a
    }
    else if c == 41 {
        let a: [i8; 16] = [9i8, 4, 5, 0, 3, 8, 2, 1, 10, -1, -1, -1, -1, -1, -1, -1];
        proof {
            assert(a@ =~= canonical_row(41));
        }
        a
    }
    else if c == 42 {
        let a: [i8; 16] = [2i8, 5, 10, 2, 4, 5, 2, 0, 4, -1, -1, -1, -1, -1, -1, -1];
        proof {
            assert(a@ =~= canonical_row(42));
        }
        a
    }
    else if c == 43 {
        let a: [i8; 16] = [10i8, 2, 5, 5, 2, 4, 4, 2, 3, 4, 3, 8, -1, -1, -1, -1];
        proof {
            assert(a@ =~= canonical_row(43));
        }
        a
    }
    else if c == 44 {
        let a: [i8; 16] = [11i8, 3, 10, 10, 3, 1, 4, 5, 9, -1, -1, -1, -1, -1, -1, -1];
        proof {
            assert(a@ =~= canonical_row(44));
        }
        a
    }
    else if c == 45 {
        let a: [i8; 16] = [4i8, 5, 9, 10, 0, 1, 10, 8, 0, 10, 11, 8, -1, -1, -1, -1];
        proof {
            assert(a@ =~= canonical_row(45));
        }
        a
    }
    else if c == 46 {
        let a: [i8; 16] = [11i8, 3, 0, 11, 0, 5, 0, 4, 5, 10, 11, 5, -1, -1, -1, -1];
        proof {
            assert(a@ =~= canonical_row(46));
        }
        a
    }
    else {
        let a: [i8; 16] = [4i8, 5, 8, 5, 10, 8, 10, 11, 8, -1, -1, -1, -1, -1, -1, -1];
        proof {
            assert(a@ =~= canonical_row(47));
        }
        a
    }
}

fn canonical_rows_data_3(c: usize) -> (r: [i8; 16])
    requires
        48 <= c < 64,
    ensures
        r@ == canonical_row(c as int),
{
    if c == 48 {
        let a: [i8; 16] = [8i8, 7, 9, 9, 7, 5, -1, -1, -1, -1, -1, -1, -1, -1, -1, -1];
        proof {
            assert(a@ =~= canonical_row(48));
        }
        a
    }
    else if c == 49 {
        let a: [i8; 16] = [3i8, 9, 0, 3, 5, 9, 3, 7, 5, -1, -1, -1, -1, -1, -1, -1];
        proof {
            assert(a@ =~= canonical_row(49));
        }
        a
    }
    else if c == 50 {
        let a: [i8; 16] = [7i8, 0, 8, 7, 1, 0, 7, 5, 1, -1, -1, -1, -1, -1, -1, -1];
        proof {
            assert(a@ =~= canonical_row(50));
        }
        a
    }
    else if c == 51 {
        let a: [i8; 16] = [7i8, 5, 3, 3, 5, 1, -1, -1, -1, -1, -1, -1, -1, -1, -1, -1];
        proof {
            assert(a@ =~= canonical_row(51));
        }
        a
    }
    else if c == 52 {
        let a: [i8; 16] = [5i8, 9, 7, 7, 9, 8, 2, 11, 3, -1, -1, -1, -1, -1, -1, -1];
        proof {
            assert(a@ =~= canonical_row(52));
        }
        a
    }
    else if c == 53 {
        let a: [i8; 16] = [2i8, 11, 7, 2, 7, 9, 7, 5, 9, 0, 2, 9, -1, -1, -1, -1];
        proof {
            assert(a@ =~= canonical_row(53));
        }
        a
    }
    else if c == 54 {
        let a: [i8; 16] = [2i8, 11, 3, 7, 0, 8, 7, 1, 0, 7, 5, 1, -1, -1, -1, -1];
        proof {
            assert(a@ =~= canonical_row(54));
        }
        a
    }
    else if c == 55 {
        let a: [i8; 16] = [2i8, 11, 1, 11, 7, 1, 7, 5, 1, -1, -1, -1, -1, -1, -1, -1];
        proof {
            assert(a@ =~= canonical_row(55));
        }
        a
    }
    else if c == 56 {
        let a: [i8; 16] = [8i8, 7, 9, 9, 7, 5, 2, 1, 10, -1, -1, -1, -1, -1, -1, -1];
        proof {
            assert(a@ =~= canonical_row(56));
        }
        a
    }
    else if c == 57 {
        let a: [i8; 16] = [10i8, 2, 1, 3, 9, 0, 3, 5, 9, 3, 7, 5, -1, -1, -1, -1];
        proof {
            assert(a@ =~= canonical_row(57));
        }
        a
    }
    else if c == 58 {
        let a: [i8; 16] = [7i8, 5, 8, 5, 10, 2, 8, 5, 2, 8, 2, 0, -1, -1, -1, -1];
        proof {
            assert(a@ =~= canonical_row(58));
        }
        a
    }
    else if c == 59 {
        let a: [i8; 16] = [10i8, 2, 5, 2, 3, 5, 3, 7, 5, -1, -1, -1, -1, -1, -1, -1];
        proof {
            assert(a@ =~= canonical_row(59));
        }
        a
    }
    else if c == 60 {
        let a: [i8; 16] = [8i8, 7, 5, 8, 5, 9, 11, 3, 10, 3, 1, 10, -1, -1, -1, -1];
        proof {
            assert(a@ =~= canonical_row(60));
        }
        a
    }
    else if c == 61 {
        let a: [i8; 16] = [5i8, 11, 7, 10, 11, 5, 1, 9, 0, -1, -1, -1, -1, -1, -1, -1];
        proof {
            assert(a@ =~= canonical_row(61));
        }
        a
    }
    else if c == 62 {
        let a: [i8; 16] = [11i8, 5, 10, 7, 5, 11, 8, 3, 0, -1, -1, -1, -1, -1, -1, -1];
        proof {
            assert(a@ =~= canonical_row(62));
        }
        a
    }
    else {
        let a: [i8; 16] = [5i8, 11, 7, 10, 11, 5, -1, -1, -1, -1, -1, -1, -1, -1, -1, -1];
        proof {
            assert(a@ =~= canonical_row(63));
        }
        a
    }
}

fn canonical_rows_data_4(c: usize) -> (r: [i8; 16])
    requires
        64 <= c < 80,
    ensures
        r@ == canonical_row(c as int),
{
    if c == 64 {
        let a: [i8; 16] = [6i8, 7, 11, -1, -1, -1, -1, -1, -1, -1, -1, -1, -1, -1, -1, -1];
        proof {
            assert(a@ =~= canonical_row(64));
        }
        a
    }
    else if c == 65 {
        let a: [i8; 16] = [7i8, 11, 6, 3, 8, 0, -1, -1, -1, -1, -1, -1, -1, -1, -1, -1];
        proof {
            assert(a@ =~= canonical_row(65));
        }
        a
    }
    else if c == 66 {
        let a: [i8; 16] = [6i8, 7, 11, 0, 9, 1, -1, -1, -1, -1, -1, -1, -1, -1, -1, -1];
        proof {
            assert(a@ =~= canonical_row(66));
        }
        a
    }
    else if c == 67 {
        let a: [i8; 16] = [9i8, 1, 8, 8, 1, 3, 6, 7, 11, -1, -1, -1, -1, -1, -1, -1];
        proof {
            assert(a@ =~= canonical_row(67));
        }
        a
    }
    else if c == 68 {
        let a: [i8; 16] = [3i8, 2, 7, 7, 2, 6, -1, -1, -1, -1, -1, -1, -1, -1, -1, -1];
        proof {
            assert(a@ =~= canonical_row(68));
        }
        a
    }
    else if c == 69 {
        let a: [i8; 16] = [0i8, 7, 8, 0, 6, 7, 0, 2, 6, -1, -1, -1, -1, -1, -1, -1];
        proof {
            assert(a@ =~= canonical_row(69));
        }
        a
    }
    else if c == 70 {
        let a: [i8; 16] = [6i8, 7, 2, 2, 7, 3, 9, 1, 0, -1, -1, -1, -1, -1, -1, -1];
        proof {
            assert(a@ =~= canonical_row(70));
        }
        a
    }
    else if c == 71 {
        let a: [i8; 16] = [6i8, 7, 8, 6, 8, 1, 8, 9, 1, 2, 6, 1, -1, -1, -1, -1];
        proof {
            assert(a@ =~= canonical_row(71));
        }
        a
    }
    else if c == 72 {
        let a: [i8; 16] = [11i8, 6, 7, 10, 2, 1, -1, -1, -1, -1, -1, -1, -1, -1, -1, -1];
        proof {
            assert(a@ =~= canonical_row(72));
        }
        a
    }
    else if c == 73 {
        let a: [i8; 16] = [3i8, 8, 0, 11, 6, 7, 10, 2, 1, -1, -1, -1, -1, -1, -1, -1];
        proof {
            assert(a@ =~= canonical_row(73));
        }
        a
    }
    else if c == 74 {
        let a: [i8; 16] = [0i8, 9, 2, 2, 9, 10, 7, 11, 6, -1, -1, -1, -1, -1, -1, -1];
        proof {
            assert(a@ =~= canonical_row(74));
        }
        a
    }
    else if c == 75 {
        let a: [i8; 16] = [6i8, 7, 11, 8, 2, 3, 8, 10, 2, 8, 9, 10, -1, -1, -1, -1];
        proof {
            assert(a@ =~= canonical_row(75));
        }
        a
    }
    else if c == 76 {
        let a: [i8; 16] = [7i8, 10, 6, 7, 1, 10, 7, 3, 1, -1, -1, -1, -1, -1, -1, -1];
        proof {
            assert(a@ =~= canonical_row(76));
        }
        a
    }
    else if c == 77 {
        let a: [i8; 16] = [8i8, 0, 7, 7, 0, 6, 6, 0, 1, 6, 1, 10, -1, -1, -1, -1];
        proof {
            assert(a@ =~= canonical_row(77));
        }
        a
    }
    else if c == 78 {
        let a: [i8; 16] = [7i8, 3, 6, 3, 0, 9, 6, 3, 9, 6, 9, 10, -1, -1, -1, -1];
        proof {
            assert(a@ =~= canonical_row(78));
        }
        a
    }
    else {
        let a: [i8; 16] = [6i8, 7, 10, 7, 8, 10, 8, 9, 10, -1, -1, -1, -1, -1, -1, -1];
        proof {
            assert(a@ =~= canonical_row(79));
        }
        a
    }
}

fn canonical_rows_data_5(c: usize) -> (r: [i8; 16])
    requires
        80 <= c < 96,
    ensures
        r@ == canonical_row(c as int),
{
    if c == 80 {
        let a: [i8; 16] = [11i8, 6, 8, 8, 6, 4, -1, -1, -1, -1, -1, -1, -1, -1, -1, -1];
        proof {
            assert(a@ =~= canonical_row(80));
        }
        a
    }
    else if c == 81 {
        let a: [i8; 16] = [6i8, 3, 11, 6, 0, 3, 6, 4, 0, -1, -1, -1, -1, -1, -1, -1];
        proof {
            assert(a@ =~= canonical_row(81));
        }
        a
    }
    else if c == 82 {
        let a: [i8; 16] = [11i8, 6, 8, 8, 6, 4, 1, 0, 9, -1, -1, -1, -1, -1, -1, -1];
        proof {
            assert(a@ =~= canonical_row(82));
        }
        a
    }
    else if c == 83 {
        let a: [i8; 16] = [1i8, 3, 9, 3, 11, 6, 9, 3, 6, 9, 6, 4, -1, -1, -1, -1];
        proof {
            assert(a@ =~= canonical_row(83));
        }
        a
    }
    else if c == 84 {
        let a: [i8; 16] = [2i8, 8, 3, 2, 4, 8, 2, 6, 4, -1, -1, -1, -1, -1, -1, -1];
        proof {
            assert(a@ =~= canonical_row(84));
        }
        a
    }
    else if c == 85 {
        let a: [i8; 16] = [4i8, 0, 6, 6, 0, 2, -1, -1, -1, -1, -1, -1, -1, -1, -1, -1];
        proof {
            assert(a@ =~= canonical_row(85));
        }
        a
    }
    else if c == 86 {
        let a: [i8; 16] = [9i8, 1, 0, 2, 8, 3, 2, 4, 8, 2, 6, 4, -1, -1, -1, -1];
        proof {
            assert(a@ =~= canonical_row(86));
        }
        a
    }
    else if c == 87 {
        let a: [i8; 16] = [9i8, 1, 4, 1, 2, 4, 2, 6, 4, -1, -1, -1, -1, -1, -1, -1];
        proof {
            assert(a@ =~= canonical_row(87));
        }
        a
    }
    else if c == 88 {
        let a: [i8; 16] = [4i8, 8, 6, 6, 8, 11, 1, 10, 2, -1, -1, -1, -1, -1, -1, -1];
        proof {
            assert(a@ =~= canonical_row(88));
        }
        a
    }
    else if c == 89 {
        let a: [i8; 16] = [1i8, 10, 2, 6, 3, 11, 6, 0, 3, 6, 4, 0, -1, -1, -1, -1];
        proof {
            assert(a@ =~= canonical_row(89));
        }
        a
    }
    else if c == 90 {
        let a: [i8; 16] = [11i8, 6, 4, 11, 4, 8, 10, 2, 9, 2, 0, 9, -1, -1, -1, -1];
        proof {
            assert(a@ =~= canonical_row(90));
        }
        a
    }
    else if c == 91 {
        let a: [i8; 16] = [10i8, 4, 9, 6, 4, 10, 11, 2, 3, -1, -1, -1, -1, -1, -1, -1];
        proof {
            assert(a@ =~= canonical_row(91));
        }
        a
    }
    else if c == 92 {
        let a: [i8; 16] = [4i8, 8, 3, 4, 3, 10, 3, 1, 10, 6, 4, 10, -1, -1, -1, -1];
        proof {
            assert(a@ =~= canonical_row(92));
        }
        a
    }
    else if c == 93 {
        let a: [i8; 16] = [1i8, 10, 0, 10, 6, 0, 6, 4, 0, -1, -1, -1, -1, -1, -1, -1];
        proof {
            assert(a@ =~= canonical_row(93));
        }
        a
    }
    else if c == 94 {
        let a: [i8; 16] = [4i8, 10, 6, 9, 10, 4, 0, 8, 3, -1, -1, -1, -1, -1, -1, -1];
        proof {
            assert(a@ =~= canonical_row(94));
        }
        a
    }
    else {
        let a: [i8; 16] = [4i8, 10, 6, 9, 10, 4, -1, -1, -1, -1, -1, -1, -1, -1, -1, -1];
        proof {
            assert(a@ =~= canonical_row(95));
        }
        a
    }
}

fn canonical_rows_data_6(c: usize) -> (r: [i8; 16])
    requires
        96 <= c < 112,
    ensures
        r@ == canonical_row(c as int),
{
    if c == 96 {
        let a: [i8; 16] = [6i8, 7, 11, 4, 5, 9, -1, -1, -1, -1, -1, -1, -1, -1, -1, -1];
        proof {
            assert(a@ =~= canonical_row(96));
        }
        a
    }
    else if c == 97 {
        let a: [i8; 16] = [4i8, 5, 9, 7, 11, 6, 3, 8, 0, -1, -1, -1, -1, -1, -1, -1];
        proof {
            assert(a@ =~= canonical_row(97));
        }
        a
    }
    else if c == 98 {
        let a: [i8; 16] = [1i8, 0, 5, 5, 0, 4, 11, 6, 7, -1, -1, -1, -1, -1, -1, -1];
        proof {
            assert(a@ =~= canonical_row(98));
        }
        a
    }
    else if c == 99 {
        let a: [i8; 16] = [11i8, 6, 7, 5, 8, 4, 5, 3, 8, 5, 1, 3, -1, -1, -1, -1];
        proof {
            assert(a@ =~= canonical_row(99));
        }
        a
    }
    else if c == 100 {
        let a: [i8; 16] = [3i8, 2, 7, 7, 2, 6, 9, 4, 5, -1, -1, -1, -1, -1, -1, -1];
        proof {
            assert(a@ =~= canonical_row(100));
        }
        a
    }
    else if c == 101 {
        let a: [i8; 16] = [5i8, 9, 4, 0, 7, 8, 0, 6, 7, 0, 2, 6, -1, -1, -1, -1];
        proof {
            assert(a@ =~= canonical_row(101));
        }
        a
    }
    else if c == 102 {
        let a: [i8; 16] = [3i8, 2, 6, 3, 6, 7, 1, 0, 5, 0, 4, 5, -1, -1, -1, -1];
        proof {
            assert(a@ =~= canonical_row(102));
        }
        a
    }
    else if c == 103 {
        let a: [i8; 16] = [6i8, 1, 2, 5, 1, 6, 4, 7, 8, -1, -1, -1, -1, -1, -1, -1];
        proof {
            assert(a@ =~= canonical_row(103));
        }
        a
    }
    else if c == 104 {
        let a: [i8; 16] = [10i8, 2, 1, 6, 7, 11, 4, 5, 9, -1, -1, -1, -1, -1, -1, -1];
        proof {
            assert(a@ =~= canonical_row(104));
        }
        a
    }
    else if c == 105 {
        let a: [i8; 16] = [0i8, 3, 8, 4, 5, 9, 11, 6, 7, 10, 2, 1, -1, -1, -1, -1];
        proof {
            assert(a@ =~= canonical_row(105));
        }
        a
    }
    else if c == 106 {
        let a: [i8; 16] = [7i8, 11, 6, 2, 5, 10, 2, 4, 5, 2, 0, 4, -1, -1, -1, -1];
        proof {
            assert(a@ =~= canonical_row(106));
        }
        a
    }
    else if c == 107 {
        let a: [i8; 16] = [8i8, 4, 7, 5, 10, 6, 3, 11, 2, -1, -1, -1, -1, -1, -1, -1];
        proof {
            assert(a@ =~= canonical_row(107));
        }
        a
    }
    else if c == 108 {
        let a: [i8; 16] = [9i8, 4, 5, 7, 10, 6, 7, 1, 10, 7, 3, 1, -1, -1, -1, -1];
        proof {
            assert(a@ =~= canonical_row(108));
        }
        a
    }
    else if c == 109 {
        let a: [i8; 16] = [10i8, 6, 5, 7, 8, 4, 1, 9, 0, -1, -1, -1, -1, -1, -1, -1];
        proof {
            assert(a@ =~= canonical_row(109));
        }
        a
    }
    else if c == 110 {
        let a: [i8; 16] = [4i8, 3, 0, 7, 3, 4, 6, 5, 10, -1, -1, -1, -1, -1, -1, -1];
        proof {
            assert(a@ =~= canonical_row(110));
        }
        a
    }
    else {
        let a: [i8; 16] = [10i8, 6, 5, 8, 4, 7, -1, -1, -1, -1, -1, -1, -1, -1, -1, -1];
        proof {
            assert(a@ =~= canonical_row(111));
        }
        a
    }
}

fn canonical_rows_data_7(c: usize) -> (r: [i8; 16])
    requires
        112 <= c < 128,
    ensures
        r@ == canonical_row(c as int),
{
    if c == 112 {
        let a: [i8; 16] = [9i8, 6, 5, 9, 11, 6, 9, 8, 11, -1, -1, -1, -1, -1, -1, -1];
        proof {
            assert(a@ =~= canonical_row(112));
        }
        a
    }
    else if c == 113 {
        let a: [i8; 16] = [11i8, 6, 3, 3, 6, 0, 0, 6, 5, 0, 5, 9, -1, -1, -1, -1];
        proof {
            assert(a@ =~= canonical_row(113));
        }
        a
    }
    else if c == 114 {
        let a: [i8; 16] = [11i8, 6, 5, 11, 5, 0, 5, 1, 0, 8, 11, 0, -1, -1, -1, -1];
        proof {
            assert(a@ =~= canonical_row(114));
        }
        a
    }
    else if c == 115 {
        let a: [i8; 16] = [11i8, 6, 3, 6, 5, 3, 5, 1, 3, -1, -1, -1, -1, -1, -1, -1];
        proof {
            assert(a@ =~= canonical_row(115));
        }
        a
    }
    else if c == 116 {
        let a: [i8; 16] = [9i8, 8, 5, 8, 3, 2, 5, 8, 2, 5, 2, 6, -1, -1, -1, -1];
        proof {
            assert(a@ =~= canonical_row(116));
        }
        a
    }
    else if c == 117 {
        let a: [i8; 16] = [5i8, 9, 6, 9, 0, 6, 0, 2, 6, -1, -1, -1, -1, -1, -1, -1];
        proof {
            assert(a@ =~= canonical_row(117));
        }
        a
    }
    else if c == 118 {
        let a: [i8; 16] = [1i8, 6, 5, 2, 6, 1, 3, 0, 8, -1, -1, -1, -1, -1, -1, -1];
        proof {
            assert(a@ =~= canonical_row(118));
        }
        a
    }
    else if c == 119 {
        let a: [i8; 16] = [1i8, 6, 5, 2, 6, 1, -1, -1, -1, -1, -1, -1, -1, -1, -1, -1];
        proof {
            assert(a@ =~= canonical_row(119));
        }
        a
    }
    else if c == 120 {
        let a: [i8; 16] = [2i8, 1, 10, 9, 6, 5, 9, 11, 6, 9, 8, 11, -1, -1, -1, -1];
        proof {
            assert(a@ =~= canonical_row(120));
        }
        a
    }
    else if c == 121 {
        let a: [i8; 16] = [9i8, 0, 1, 3, 11, 2, 5, 10, 6, -1, -1, -1, -1, -1, -1, -1];
        proof {
            assert(a@ =~= canonical_row(121));
        }
        a
    }
    else if c == 122 {
        let a: [i8; 16] = [11i8, 0, 8, 2, 0, 11, 10, 6, 5, -1, -1, -1, -1, -1, -1, -1];
        proof {
            assert(a@ =~= canonical_row(122));
        }
        a
    }
    else if c == 123 {
        let a: [i8; 16] = [3i8, 11, 2, 5, 10, 6, -1, -1, -1, -1, -1, -1, -1, -1, -1, -1];
        proof {
            assert(a@ =~= canonical_row(123));
        }
        a
    }
    else if c == 124 {
        let a: [i8; 16] = [1i8, 8, 3, 9, 8, 1, 5, 10, 6, -1, -1, -1, -1, -1, -1, -1];
        proof {
            assert(a@ =~= canonical_row(124));
        }
        a
    }
    else if c == 125 {
        let a: [i8; 16] = [6i8, 5, 10, 0, 1, 9, -1, -1, -1, -1, -1, -1, -1, -1, -1, -1];
        proof {
            assert(a@ =~= canonical_row(125));
        }
        a
    }
    else if c == 126 {
        let a: [i8; 16] = [8i8, 3, 0, 5, 10, 6, -1, -1, -1, -1, -1, -1, -1, -1, -1, -1];
        proof {
            assert(a@ =~= canonical_row(126));
        }
        a
    }
    else {
        let a: [i8; 16] = [6i8, 5, 10, -1, -1, -1, -1, -1, -1, -1, -1, -1, -1, -1, -1, -1];
        proof {
            assert(a@ =~= canonical_row(127));
        }
        a
    }
}

fn canonical_rows_data_8(c: usize) -> (r: [i8; 16])
    requires
        128 <= c < 144,
    ensures
        r@ == canonical_row(c as int),
{
    if c == 128 {
        let a: [i8; 16] = [10i8, 5, 6, -1, -1, -1, -1, -1, -1, -1, -1, -1, -1, -1, -1, -1];
        proof {
            assert(a@ =~= canonical_row(128));
        }
        a
    }
    else if c == 129 {
        let a: [i8; 16] = [0i8, 3, 8, 6, 10, 5, -1, -1, -1, -1, -1, -1, -1, -1, -1, -1];
        proof {
            assert(a@ =~= canonical_row(129));
        }
        a
    }
    else if c == 130 {
        let a: [i8; 16] = [10i8, 5, 6, 9, 1, 0, -1, -1, -1, -1, -1, -1, -1, -1, -1, -1];
        proof {
            assert(a@ =~= canonical_row(130));
        }
        a
    }
    else if c == 131 {
        let a: [i8; 16] = [3i8, 8, 1, 1, 8, 9, 6, 10, 5, -1, -1, -1, -1, -1, -1, -1];
        proof {
            assert(a@ =~= canonical_row(131));
        }
        a
    }
    else if c == 132 {
        let a: [i8; 16] = [2i8, 11, 3, 6, 10, 5, -1, -1, -1, -1, -1, -1, -1, -1, -1, -1];
        proof {
            assert(a@ =~= canonical_row(132));
        }
        a
    }
    else if c == 133 {
        let a: [i8; 16] = [8i8, 0, 11, 11, 0, 2, 5, 6, 10, -1, -1, -1, -1, -1, -1, -1];
        proof {
            assert(a@ =~= canonical_row(133));
        }
        a
    }
    else if c == 134 {
        let a: [i8; 16] = [1i8, 0, 9, 2, 11, 3, 6, 10, 5, -1, -1, -1, -1, -1, -1, -1];
        proof {
            assert(a@ =~= canonical_row(134));
        }
        a
    }
    else if c == 135 {
        let a: [i8; 16] = [5i8, 6, 10, 11, 1, 2, 11, 9, 1, 11, 8, 9, -1, -1, -1, -1];
        proof {
            assert(a@ =~= canonical_row(135));
        }
        a
    }
    else if c == 136 {
        let a: [i8; 16] = [5i8, 6, 1, 1, 6, 2, -1, -1, -1, -1, -1, -1, -1, -1, -1, -1];
        proof {
            assert(a@ =~= canonical_row(136));
        }
        a
    }
    else if c == 137 {
        let a: [i8; 16] = [5i8, 6, 1, 1, 6, 2, 8, 0, 3, -1, -1, -1, -1, -1, -1, -1];
        proof {
            assert(a@ =~= canonical_row(137));
        }
        a
    }
    else if c == 138 {
        let a: [i8; 16] = [6i8, 9, 5, 6, 0, 9, 6, 2, 0, -1, -1, -1, -1, -1, -1, -1];
        proof {
            assert(a@ =~= canonical_row(138));
        }
        a
    }
    else if c == 139 {
        let a: [i8; 16] = [6i8, 2, 5, 2, 3, 8, 5, 2, 8, 5, 8, 9, -1, -1, -1, -1];
        proof {
            assert(a@ =~= canonical_row(139));
        }
        a
    }
    else if c == 140 {
        let a: [i8; 16] = [3i8, 6, 11, 3, 5, 6, 3, 1, 5, -1, -1, -1, -1, -1, -1, -1];
        proof {
            assert(a@ =~= canonical_row(140));
        }
        a
    }
    else if c == 141 {
        let a: [i8; 16] = [8i8, 0, 1, 8, 1, 6, 1, 5, 6, 11, 8, 6, -1, -1, -1, -1];
        proof {
            assert(a@ =~= canonical_row(141));
        }
        a
    }
    else if c == 142 {
        let a: [i8; 16] = [11i8, 3, 6, 6, 3, 5, 5, 3, 0, 5, 0, 9, -1, -1, -1, -1];
        proof {
            assert(a@ =~= canonical_row(142));
        }
        a
    }
    else {
        let a: [i8; 16] = [5i8, 6, 9, 6, 11, 9, 11, 8, 9, -1, -1, -1, -1, -1, -1, -1];
        proof {
            assert(a@ =~= canonical_row(143));
        }
        a
    }
}

fn canonical_rows_data_9(c: usize) -> (r: [i8; 16])
    requires
        144 <= c < 160,
    ensures
        r@ == canonical_row(c as int),
{
    if c == 144 {
        let a: [i8; 16] = [5i8, 6, 10, 7, 4, 8, -1, -1, -1, -1, -1, -1, -1, -1, -1, -1];
        proof {
            assert(a@ =~= canonical_row(144));
        }
        a
    }
    else if c == 145 {
        let a: [i8; 16] = [0i8, 3, 4, 4, 3, 7, 10, 5, 6, -1, -1, -1, -1, -1, -1, -1];
        proof {
            assert(a@ =~= canonical_row(145));
        }
        a
    }
    else if c == 146 {
        let a: [i8; 16] = [5i8, 6, 10, 4, 8, 7, 0, 9, 1, -1, -1, -1, -1, -1, -1, -1];
        proof {
            assert(a@ =~= canonical_row(146));
        }
        a
    }
    else if c == 147 {
        let a: [i8; 16] = [6i8, 10, 5, 1, 4, 9, 1, 7, 4, 1, 3, 7, -1, -1, -1, -1];
        proof {
            assert(a@ =~= canonical_row(147));
        }
        a
    }
    else if c == 148 {
        let a: [i8; 16] = [7i8, 4, 8, 6, 10, 5, 2, 11, 3, -1, -1, -1, -1, -1, -1, -1];
        proof {
            assert(a@ =~= canonical_row(148));
        }
        a
    }
    else if c == 149 {
        let a: [i8; 16] = [10i8, 5, 6, 4, 11, 7, 4, 2, 11, 4, 0, 2, -1, -1, -1, -1];
        proof {
            assert(a@ =~= canonical_row(149));
        }
        a
    }
    else if c == 150 {
        let a: [i8; 16] = [4i8, 8, 7, 6, 10, 5, 3, 2, 11, 1, 0, 9, -1, -1, -1, -1];
        proof {
            assert(a@ =~= canonical_row(150));
        }
        a
    }
    else if c == 151 {
        let a: [i8; 16] = [1i8, 2, 10, 11, 7, 6, 9, 5, 4, -1, -1, -1, -1, -1, -1, -1];
        proof {
            assert(a@ =~= canonical_row(151));
        }
        a
    }
    else if c == 152 {
        let a: [i8; 16] = [2i8, 1, 6, 6, 1, 5, 8, 7, 4, -1, -1, -1, -1, -1, -1, -1];
        proof {
            assert(a@ =~= canonical_row(152));
        }
        a
    }
    else if c == 153 {
        let a: [i8; 16] = [0i8, 3, 7, 0, 7, 4, 2, 1, 6, 1, 5, 6, -1, -1, -1, -1];
        proof {
            assert(a@ =~= canonical_row(153));
        }
        a
    }
    else if c == 154 {
        let a: [i8; 16] = [8i8, 7, 4, 6, 9, 5, 6, 0, 9, 6, 2, 0, -1, -1, -1, -1];
        proof {
            assert(a@ =~= canonical_row(154));
        }
        a
    }
    else if c == 155 {
        let a: [i8; 16] = [7i8, 2, 3, 6, 2, 7, 5, 4, 9, -1, -1, -1, -1, -1, -1, -1];
        proof {
            assert(a@ =~= canonical_row(155));
        }
        a
    }
    else if c == 156 {
        let a: [i8; 16] = [4i8, 8, 7, 3, 6, 11, 3, 5, 6, 3, 1, 5, -1, -1, -1, -1];
        proof {
            assert(a@ =~= canonical_row(156));
        }
        a
    }
    else if c == 157 {
        let a: [i8; 16] = [5i8, 0, 1, 4, 0, 5, 7, 6, 11, -1, -1, -1, -1, -1, -1, -1];
        proof {
            assert(a@ =~= canonical_row(157));
        }
        a
    }
    else if c == 158 {
        let a: [i8; 16] = [9i8, 5, 4, 6, 11, 7, 0, 8, 3, -1, -1, -1, -1, -1, -1, -1];
        proof {
            assert(a@ =~= canonical_row(158));
        }
        a
    }
    else {
        let a: [i8; 16] = [11i8, 7, 6, 9, 5, 4, -1, -1, -1, -1, -1, -1, -1, -1, -1, -1];
        proof {
            assert(a@ =~= canonical_row(159));
        }
        a
    }
}

fn canonical_rows_data_10(c: usize) -> (r: [i8; 16])
    requires
        160 <= c < 176,
    ensures
        r@ == canonical_row(c as int),
{
    if c == 160 {
        let a: [i8; 16] = [6i8, 10, 4, 4, 10, 9, -1, -1, -1, -1, -1, -1, -1, -1, -1, -1];
        proof {
            assert(a@ =~= canonical_row(160));
        }
        a
    }
    else if c == 161 {
        let a: [i8; 16] = [6i8, 10, 4, 4, 10, 9, 3, 8, 0, -1, -1, -1, -1, -1, -1, -1];
        proof {
            assert(a@ =~= canonical_row(161));
        }
        a
    }
    else if c == 162 {
        let a: [i8; 16] = [0i8, 10, 1, 0, 6, 10, 0, 4, 6, -1, -1, -1, -1, -1, -1, -1];
        proof {
            assert(a@ =~= canonical_row(162));
        }
        a
    }
    else if c == 163 {
        let a: [i8; 16] = [6i8, 10, 1, 6, 1, 8, 1, 3, 8, 4, 6, 8, -1, -1, -1, -1];
        proof {
            assert(a@ =~= canonical_row(163));
        }
        a
    }
    else if c == 164 {
        let a: [i8; 16] = [9i8, 4, 10, 10, 4, 6, 3, 2, 11, -1, -1, -1, -1, -1, -1, -1];
        proof {
            assert(a@ =~= canonical_row(164));
        }
        a
    }
    else if c == 165 {
        let a: [i8; 16] = [2i8, 11, 8, 2, 8, 0, 6, 10, 4, 10, 9, 4, -1, -1, -1, -1];
        proof {
            assert(a@ =~= canonical_row(165));
        }
        a
    }
    else if c == 166 {
        let a: [i8; 16] = [11i8, 3, 2, 0, 10, 1, 0, 6, 10, 0, 4, 6, -1, -1, -1, -1];
        proof {
            assert(a@ =~= canonical_row(166));
        }
        a
    }
    else if c == 167 {
        let a: [i8; 16] = [6i8, 8, 4, 11, 8, 6, 2, 10, 1, -1, -1, -1, -1, -1, -1, -1];
        proof {
            assert(a@ =~= canonical_row(167));
        }
        a
    }
    else if c == 168 {
        let a: [i8; 16] = [4i8, 1, 9, 4, 2, 1, 4, 6, 2, -1, -1, -1, -1, -1, -1, -1];
        proof {
            assert(a@ =~= canonical_row(168));
        }
        a
    }
    else if c == 169 {
        let a: [i8; 16] = [3i8, 8, 0, 4, 1, 9, 4, 2, 1, 4, 6, 2, -1, -1, -1, -1];
        proof {
            assert(a@ =~= canonical_row(169));
        }
        a
    }
    else if c == 170 {
        let a: [i8; 16] = [6i8, 2, 4, 4, 2, 0, -1, -1, -1, -1, -1, -1, -1, -1, -1, -1];
        proof {
            assert(a@ =~= canonical_row(170));
        }
        a
    }
    else if c == 171 {
        let a: [i8; 16] = [3i8, 8, 2, 8, 4, 2, 4, 6, 2, -1, -1, -1, -1, -1, -1, -1];
        proof {
            assert(a@ =~= canonical_row(171));
        }
        a
    }
    else if c == 172 {
        let a: [i8; 16] = [4i8, 6, 9, 6, 11, 3, 9, 6, 3, 9, 3, 1, -1, -1, -1, -1];
        proof {
            assert(a@ =~= canonical_row(172));
        }
        a
    }
    else if c == 173 {
        let a: [i8; 16] = [8i8, 6, 11, 4, 6, 8, 9, 0, 1, -1, -1, -1, -1, -1, -1, -1];
        proof {
            assert(a@ =~= canonical_row(173));
        }
        a
    }
    else if c == 174 {
        let a: [i8; 16] = [11i8, 3, 6, 3, 0, 6, 0, 4, 6, -1, -1, -1, -1, -1, -1, -1];
        proof {
            assert(a@ =~= canonical_row(174));
        }
        a
    }
    else {
        let a: [i8; 16] = [8i8, 6, 11, 4, 6, 8, -1, -1, -1, -1, -1, -1, -1, -1, -1, -1];
        proof {
            assert(a@ =~= canonical_row(175));
        }
        a
    }
}

fn canonical_rows_data_11(c: usize) -> (r: [i8; 16])
    requires
        176 <= c < 192,
    ensures
        r@ == canonical_row(c as int),
{
    if c == 176 {
        let a: [i8; 16] = [10i8, 7, 6, 10, 8, 7, 10, 9, 8, -1, -1, -1, -1, -1, -1, -1];
        proof {
            assert(a@ =~= canonical_row(176));
        }
        a
    }
    else if c == 177 {
        let a: [i8; 16] = [3i8, 7, 0, 7, 6, 10, 0, 7, 10, 0, 10, 9, -1, -1, -1, -1];
        proof {
            assert(a@ =~= canonical_row(177));
        }
        a
    }
    else if c == 178 {
        let a: [i8; 16] = [6i8, 10, 7, 7, 10, 8, 8, 10, 1, 8, 1, 0, -1, -1, -1, -1];
        proof {
            assert(a@ =~= canonical_row(178));
        }
        a
    }
    else if c == 179 {
        let a: [i8; 16] = [6i8, 10, 7, 10, 1, 7, 1, 3, 7, -1, -1, -1, -1, -1, -1, -1];
        proof {
            assert(a@ =~= canonical_row(179));
        }
        a
    }
    else if c == 180 {
        let a: [i8; 16] = [3i8, 2, 11, 10, 7, 6, 10, 8, 7, 10, 9, 8, -1, -1, -1, -1];
        proof {
            assert(a@ =~= canonical_row(180));
        }
        a
    }
    else if c == 181 {
        let a: [i8; 16] = [2i8, 9, 0, 10, 9, 2, 6, 11, 7, -1, -1, -1, -1, -1, -1, -1];
        proof {
            assert(a@ =~= canonical_row(181));
        }
        a
    }
    else if c == 182 {
        let a: [i8; 16] = [0i8, 8, 3, 7, 6, 11, 1, 2, 10, -1, -1, -1, -1, -1, -1, -1];
        proof {
            assert(a@ =~= canonical_row(182));
        }
        a
    }
    else if c == 183 {
        let a: [i8; 16] = [7i8, 6, 11, 1, 2, 10, -1, -1, -1, -1, -1, -1, -1, -1, -1, -1];
        proof {
            assert(a@ =~= canonical_row(183));
        }
        a
    }
    else if c == 184 {
        let a: [i8; 16] = [2i8, 1, 9, 2, 9, 7, 9, 8, 7, 6, 2, 7, -1, -1, -1, -1];
        proof {
            assert(a@ =~= canonical_row(184));
        }
        a
    }
    else if c == 185 {
        let a: [i8; 16] = [2i8, 7, 6, 3, 7, 2, 0, 1, 9, -1, -1, -1, -1, -1, -1, -1];
        proof {
            assert(a@ =~= canonical_row(185));
        }
        a
    }
    else if c == 186 {
        let a: [i8; 16] = [8i8, 7, 0, 7, 6, 0, 6, 2, 0, -1, -1, -1, -1, -1, -1, -1];
        proof {
            assert(a@ =~= canonical_row(186));
        }
        a
    }
    else if c == 187 {
        let a: [i8; 16] = [7i8, 2, 3, 6, 2, 7, -1, -1, -1, -1, -1, -1, -1, -1, -1, -1];
        proof {
            assert(a@ =~= canonical_row(187));
        }
        a
    }
    else if c == 188 {
        let a: [i8; 16] = [8i8, 1, 9, 3, 1, 8, 11, 7, 6, -1, -1, -1, -1, -1, -1, -1];
        proof {
            assert(a@ =~= canonical_row(188));
        }
        a
    }
    else if c == 189 {
        let a: [i8; 16] = [11i8, 7, 6, 1, 9, 0, -1, -1, -1, -1, -1, -1, -1, -1, -1, -1];
        proof {
            assert(a@ =~= canonical_row(189));
        }
        a
    }
    else if c == 190 {
        let a: [i8; 16] = [6i8, 11, 7, 0, 8, 3, -1, -1, -1, -1, -1, -1, -1, -1, -1, -1];
        proof {
            assert(a@ =~= canonical_row(190));
        }
        a
    }
    else {
        let a: [i8; 16] = [11i8, 7, 6, -1, -1, -1, -1, -1, -1, -1, -1, -1, -1, -1, -1, -1];
        proof {
            assert(a@ =~= canonical_row(191));
        }
        a
    }
}

fn canonical_rows_data_12(c: usize) -> (r: [i8; 16])
    requires
        192 <= c < 208,
    ensures
        r@ == canonical_row(c as int),
{
    if c == 192 {
        let a: [i8; 16] = [7i8, 11, 5, 5, 11, 10, -1, -1, -1, -1, -1, -1, -1, -1, -1, -1];
        proof {
            assert(a@ =~= canonical_row(192));
        }
        a
    }
    else if c == 193 {
        let a: [i8; 16] = [10i8, 5, 11, 11, 5, 7, 0, 3, 8, -1, -1, -1, -1, -1, -1, -1];
        proof {
            assert(a@ =~= canonical_row(193));
        }
        a
    }
    else if c == 194 {
        let a: [i8; 16] = [7i8, 11, 5, 5, 11, 10, 0, 9, 1, -1, -1, -1, -1, -1, -1, -1];
        proof {
            assert(a@ =~= canonical_row(194));
        }
        a
    }
    else if c == 195 {
        let a: [i8; 16] = [7i8, 11, 10, 7, 10, 5, 3, 8, 1, 8, 9, 1, -1, -1, -1, -1];
        proof {
            assert(a@ =~= canonical_row(195));
        }
        a
    }
    else if c == 196 {
        let a: [i8; 16] = [5i8, 2, 10, 5, 3, 2, 5, 7, 3, -1, -1, -1, -1, -1, -1, -1];
        proof {
            assert(a@ =~= canonical_row(196));
        }
        a
    }
    else if c == 197 {
        let a: [i8; 16] = [5i8, 7, 10, 7, 8, 0, 10, 7, 0, 10, 0, 2, -1, -1, -1, -1];
        proof {
            assert(a@ =~= canonical_row(197));
        }
        a
    }
    else if c == 198 {
        let a: [i8; 16] = [0i8, 9, 1, 5, 2, 10, 5, 3, 2, 5, 7, 3, -1, -1, -1, -1];
        proof {
            assert(a@ =~= canonical_row(198));
        }
        a
    }
    else if c == 199 {
        let a: [i8; 16] = [9i8, 7, 8, 5, 7, 9, 10, 1, 2, -1, -1, -1, -1, -1, -1, -1];
        proof {
            assert(a@ =~= canonical_row(199));
        }
        a
    }
    else if c == 200 {
        let a: [i8; 16] = [1i8, 11, 2, 1, 7, 11, 1, 5, 7, -1, -1, -1, -1, -1, -1, -1];
        proof {
            assert(a@ =~= canonical_row(200));
        }
        a
    }
    else if c == 201 {
        let a: [i8; 16] = [8i8, 0, 3, 1, 11, 2, 1, 7, 11, 1, 5, 7, -1, -1, -1, -1];
        proof {
            assert(a@ =~= canonical_row(201));
        }
        a
    }
    else if c == 202 {
        let a: [i8; 16] = [7i8, 11, 2, 7, 2, 9, 2, 0, 9, 5, 7, 9, -1, -1, -1, -1];
        proof {
            assert(a@ =~= canonical_row(202));
        }
        a
    }
    else if c == 203 {
        let a: [i8; 16] = [7i8, 9, 5, 8, 9, 7, 3, 11, 2, -1, -1, -1, -1, -1, -1, -1];
        proof {
            assert(a@ =~= canonical_row(203));
        }
        a
    }
    else if c == 204 {
        let a: [i8; 16] = [3i8, 1, 7, 7, 1, 5, -1, -1, -1, -1, -1, -1, -1, -1, -1, -1];
        proof {
            assert(a@ =~= canonical_row(204));
        }
        a
    }
    else if c == 205 {
        let a: [i8; 16] = [8i8, 0, 7, 0, 1, 7, 1, 5, 7, -1, -1, -1, -1, -1, -1, -1];
        proof {
            assert(a@ =~= canonical_row(205));
        }
        a
    }
    else if c == 206 {
        let a: [i8; 16] = [0i8, 9, 3, 9, 5, 3, 5, 7, 3, -1, -1, -1, -1, -1, -1, -1];
        proof {
            assert(a@ =~= canonical_row(206));
        }
        a
    }
    else {
        let a: [i8; 16] = [9i8, 7, 8, 5, 7, 9, -1, -1, -1, -1, -1, -1, -1, -1, -1, -1];
        proof {
            assert(a@ =~= canonical_row(207));
        }
        a
    }
}

fn canonical_rows_data_13(c: usize) -> (r: [i8; 16])
    requires
        208 <= c < 224,
    ensures
        r@ == canonical_row(c as int),
{
    if c == 208 {
        let a: [i8; 16] = [8i8, 5, 4, 8, 10, 5, 8, 11, 10, -1, -1, -1, -1, -1, -1, -1];
        proof {
            assert(a@ =~= canonical_row(208));
        }
        a
    }
    else if c == 209 {
        let a: [i8; 16] = [0i8, 3, 11, 0, 11, 5, 11, 10, 5, 4, 0, 5, -1, -1, -1, -1];
        proof {
            assert(a@ =~= canonical_row(209));
        }
        a
    }
    else if c == 210 {
        let a: [i8; 16] = [1i8, 0, 9, 8, 5, 4, 8, 10, 5, 8, 11, 10, -1, -1, -1, -1];
        proof {
            assert(a@ =~= canonical_row(210));
        }
        a
    }
    else if c == 211 {
        let a: [i8; 16] = [10i8, 3, 11, 1, 3, 10, 9, 5, 4, -1, -1, -1, -1, -1, -1, -1];
        proof {
            assert(a@ =~= canonical_row(211));
        }
        a
    }
    else if c == 212 {
        let a: [i8; 16] = [3i8, 2, 8, 8, 2, 4, 4, 2, 10, 4, 10, 5, -1, -1, -1, -1];
        proof {
            assert(a@ =~= canonical_row(212));
        }
        a
    }
    else if c == 213 {
        let a: [i8; 16] = [10i8, 5, 2, 5, 4, 2, 4, 0, 2, -1, -1, -1, -1, -1, -1, -1];
        proof {
            assert(a@ =~= canonical_row(213));
        }
        a
    }
    else if c == 214 {
        let a: [i8; 16] = [5i8, 4, 9, 8, 3, 0, 10, 1, 2, -1, -1, -1, -1, -1, -1, -1];
        proof {
            assert(a@ =~= canonical_row(214));
        }
        a
    }
    else if c == 215 {
        let a: [i8; 16] = [2i8, 10, 1, 4, 9, 5, -1, -1, -1, -1, -1, -1, -1, -1, -1, -1];
        proof {
            assert(a@ =~= canonical_row(215));
        }
        a
    }
    else if c == 216 {
        let a: [i8; 16] = [8i8, 11, 4, 11, 2, 1, 4, 11, 1, 4, 1, 5, -1, -1, -1, -1];
        proof {
            assert(a@ =~= canonical_row(216));
        }
        a
    }
    else if c == 217 {
        let a: [i8; 16] = [0i8, 5, 4, 1, 5, 0, 2, 3, 11, -1, -1, -1, -1, -1, -1, -1];
        proof {
            assert(a@ =~= canonical_row(217));
        }
        a
    }
    else if c == 218 {
        let a: [i8; 16] = [0i8, 11, 2, 8, 11, 0, 4, 9, 5, -1, -1, -1, -1, -1, -1, -1];
        proof {
            assert(a@ =~= canonical_row(218));
        }
        a
    }
    else if c == 219 {
        let a: [i8; 16] = [5i8, 4, 9, 2, 3, 11, -1, -1, -1, -1, -1, -1, -1, -1, -1, -1];
        proof {
            assert(a@ =~= canonical_row(219));
        }
        a
    }
    else if c == 220 {
        let a: [i8; 16] = [4i8, 8, 5, 8, 3, 5, 3, 1, 5, -1, -1, -1, -1, -1, -1, -1];
        proof {
            assert(a@ =~= canonical_row(220));
        }
        a
    }
    else if c == 221 {
        let a: [i8; 16] = [0i8, 5, 4, 1, 5, 0, -1, -1, -1, -1, -1, -1, -1, -1, -1, -1];
        proof {
            assert(a@ =~= canonical_row(221));
        }
        a
    }
    else if c == 222 {
        let a: [i8; 16] = [5i8, 4, 9, 3, 0, 8, -1, -1, -1, -1, -1, -1, -1, -1, -1, -1];
        proof {
            assert(a@ =~= canonical_row(222));
        }
        a
    }
    else {
        let a: [i8; 16] = [5i8, 4, 9, -1, -1, -1, -1, -1, -1, -1, -1, -1, -1, -1, -1, -1];
        proof {
            assert(a@ =~= canonical_row(223));
        }
        a
    }
}

fn canonical_rows_data_14(c: usize) -> (r: [i8; 16])
    requires
        224 <= c < 240,
    ensures
        r@ == canonical_row(c as int),
{
    if c == 224 {
        let a: [i8; 16] = [11i8, 4, 7, 11, 9, 4, 11, 10, 9, -1, -1, -1, -1, -1, -1, -1];
        proof {
            assert(a@ =~= canonical_row(224));
        }
        a
    }
    else if c == 225 {
        let a: [i8; 16] = [0i8, 3, 8, 11, 4, 7, 11, 9, 4, 11, 10, 9, -1, -1, -1, -1];
        proof {
            assert(a@ =~= canonical_row(225));
        }
        a
    }
    else if c == 226 {
        let a: [i8; 16] = [11i8, 10, 7, 10, 1, 0, 7, 10, 0, 7, 0, 4, -1, -1, -1, -1];
        proof {
            assert(a@ =~= canonical_row(226));
        }
        a
    }
    else if c == 227 {
        let a: [i8; 16] = [3i8, 10, 1, 11, 10, 3, 7, 8, 4, -1, -1, -1, -1, -1, -1, -1];
        proof {
            assert(a@ =~= canonical_row(227));
        }
        a
    }
    else if c == 228 {
        let a: [i8; 16] = [3i8, 2, 10, 3, 10, 4, 10, 9, 4, 7, 3, 4, -1, -1, -1, -1];
        proof {
            assert(a@ =~= canonical_row(228));
        }
        a
    }
    else if c == 229 {
        let a: [i8; 16] = [9i8, 2, 10, 0, 2, 9, 8, 4, 7, -1, -1, -1, -1, -1, -1, -1];
        proof {
            assert(a@ =~= canonical_row(229));
        }
        a
    }
    else if c == 230 {
        let a: [i8; 16] = [3i8, 4, 7, 0, 4, 3, 1, 2, 10, -1, -1, -1, -1, -1, -1, -1];
        proof {
            assert(a@ =~= canonical_row(230));
        }
        a
    }
    else if c == 231 {
        let a: [i8; 16] = [7i8, 8, 4, 10, 1, 2, -1, -1, -1, -1, -1, -1, -1, -1, -1, -1];
        proof {
            assert(a@ =~= canonical_row(231));
        }
        a
    }
    else if c == 232 {
        let a: [i8; 16] = [7i8, 11, 4, 4, 11, 9, 9, 11, 2, 9, 2, 1, -1, -1, -1, -1];
        proof {
            assert(a@ =~= canonical_row(232));
        }
        a
    }
    else if c == 233 {
        let a: [i8; 16] = [1i8, 9, 0, 4, 7, 8, 2, 3, 11, -1, -1, -1, -1, -1, -1, -1];
        proof {
            assert(a@ =~= canonical_row(233));
        }
        a
    }
    else if c == 234 {
        let a: [i8; 16] = [7i8, 11, 4, 11, 2, 4, 2, 0, 4, -1, -1, -1, -1, -1, -1, -1];
        proof {
            assert(a@ =~= canonical_row(234));
        }
        a
    }
    else if c == 235 {
        let a: [i8; 16] = [4i8, 7, 8, 2, 3, 11, -1, -1, -1, -1, -1, -1, -1, -1, -1, -1];
        proof {
            assert(a@ =~= canonical_row(235));
        }
        a
    }
    else if c == 236 {
        let a: [i8; 16] = [9i8, 4, 1, 4, 7, 1, 7, 3, 1, -1, -1, -1, -1, -1, -1, -1];
        proof {
            assert(a@ =~= canonical_row(236));
        }
        a
    }
    else if c == 237 {
        let a: [i8; 16] = [7i8, 8, 4, 1, 9, 0, -1, -1, -1, -1, -1, -1, -1, -1, -1, -1];
        proof {
            assert(a@ =~= canonical_row(237));
        }
        a
    }
    else if c == 238 {
        let a: [i8; 16] = [3i8, 4, 7, 0, 4, 3, -1, -1, -1, -1, -1, -1, -1, -1, -1, -1];
        proof {
            assert(a@ =~= canonical_row(238));
        }
        a
    }
    else {
        let a: [i8; 16] = [7i8, 8, 4, -1, -1, -1, -1, -1, -1, -1, -1, -1, -1, -1, -1, -1];
        proof {
            assert(a@ =~= canonical_row(239));
        }
        a
    }
}

fn canonical_rows_data_15(c: usize) -> (r: [i8; 16])
    requires
        240 <= c < 256,
    ensures
        r@ == canonical_row(c as int),
{
    if c == 240 {
        let a: [i8; 16] = [11i8, 10, 8, 8, 10, 9, -1, -1, -1, -1, -1, -1, -1, -1, -1, -1];
        proof {
            assert(a@ =~= canonical_row(240));
        }
        a
    }
    else if c == 241 {
        let a: [i8; 16] = [0i8, 3, 9, 3, 11, 9, 11, 10, 9, -1, -1, -1, -1, -1, -1, -1];
        proof {
            assert(a@ =~= canonical_row(241));
        }
        a
    }
    else if c == 242 {
        let a: [i8; 16] = [1i8, 0, 10, 0, 8, 10, 8, 11, 10, -1, -1, -1, -1, -1, -1, -1];
        proof {
            assert(a@ =~= canonical_row(242));
        }
        a
    }
    else if c == 243 {
        let a: [i8; 16] = [10i8, 3, 11, 1, 3, 10, -1, -1, -1, -1, -1, -1, -1, -1, -1, -1];
        proof {
            assert(a@ =~= canonical_row(243));
        }
        a
    }
    else if c == 244 {
        let a: [i8; 16] = [3i8, 2, 8, 2, 10, 8, 10, 9, 8, -1, -1, -1, -1, -1, -1, -1];
        proof {
            assert(a@ =~= canonical_row(244));
        }
        a
    }
    else if c == 245 {
        let a: [i8; 16] = [9i8, 2, 10, 0, 2, 9, -1, -1, -1, -1, -1, -1, -1, -1, -1, -1];
        proof {
            assert(a@ =~= canonical_row(245));
        }
        a
    }
    else if c == 246 {
        let a: [i8; 16] = [8i8, 3, 0, 10, 1, 2, -1, -1, -1, -1, -1, -1, -1, -1, -1, -1];
        proof {
            assert(a@ =~= canonical_row(246));
        }
        a
    }
    else if c == 247 {
        let a: [i8; 16] = [2i8, 10, 1, -1, -1, -1, -1, -1, -1, -1, -1, -1, -1, -1, -1, -1];
        proof {
            assert(a@ =~= canonical_row(247));
        }
        a
    }
    else if c == 248 {
        let a: [i8; 16] = [2i8, 1, 11, 1, 9, 11, 9, 8, 11, -1, -1, -1, -1, -1, -1, -1];
        proof {
            assert(a@ =~= canonical_row(248));
        }
        a
    }
    else if c == 249 {
        let a: [i8; 16] = [11i8, 2, 3, 9, 0, 1, -1, -1, -1, -1, -1, -1, -1, -1, -1, -1];
        proof {
            assert(a@ =~= canonical_row(249));
        }
        a
    }
    else if c == 250 {
        let a: [i8; 16] = [11i8, 0, 8, 2, 0, 11, -1, -1, -1, -1, -1, -1, -1, -1, -1, -1];
        proof {
            assert(a@ =~= canonical_row(250));
        }
        a
    }
    else if c == 251 {
        let a: [i8; 16] = [3i8, 11, 2, -1, -1, -1, -1, -1, -1, -1, -1, -1, -1, -1, -1, -1];
        proof {
            assert(a@ =~= canonical_row(251));
        }
        a
    }
    else if c == 252 {
        let a: [i8; 16] = [1i8, 8, 3, 9, 8, 1, -1, -1, -1, -1, -1, -1, -1, -1, -1, -1];
        proof {
            assert(a@ =~= canonical_row(252));
        }
        a
    }
    else if c == 253 {
        let a: [i8; 16] = [1i8, 9, 0, -1, -1, -1, -1, -1, -1, -1, -1, -1, -1, -1, -1, -1];
        proof {
            assert(a@ =~= canonical_row(253));
        }
        a
    }
    else if c == 254 {
        let a: [i8; 16] = [8i8, 3, 0, -1, -1, -1, -1, -1, -1, -1, -1, -1, -1, -1, -1, -1];
        proof {
            assert(a@ =~= canonical_row(254));
        }
        a
    }
    else {
        let a: [i8; 16] = [-1i8, -1, -1, -1, -1, -1, -1, -1, -1, -1, -1, -1, -1, -1, -1, -1];
        proof {
            assert(a@ =~= canonical_row(255));
        }
        a
    }
}

/// The canonical triangle-table row of configuration `c`, as a runtime
/// value.
pub fn canonical_row_data(c: usize) -> (r: [i8; 16])
    requires
        c < 256,
    ensures
        r@ == canonical_row(c as int),
{
    if c < 16 {
        canonical_rows_data_0(c)
    }
    else if c < 32 {
        canonical_rows_data_1(c)
    }
    else if c < 48 {
        canonical_rows_data_2(c)
    }
    else if c < 64 {
        canonical_rows_data_3(c)
    }
    else if c < 80 {
        canonical_rows_data_4(c)
    }
    else if c < 96 {
        canonical_rows_data_5(c)
    }
    else if c < 112 {
        canonical_rows_data_6(c)
    }
    else if c < 128 {
        canonical_rows_data_7(c)
    }
    else if c < 144 {
        canonical_rows_data_8(c)
    }
    else if c < 160 {
        canonical_rows_data_9(c)
    }
    else if c < 176 {
        canonical_rows_data_10(c)
    }
    else if c < 192 {
        canonical_rows_data_11(c)
    }
    else if c < 208 {
        canonical_rows_data_12(c)
    }
    else if c < 224 {
        canonical_rows_data_13(c)
    }
    else if c < 240 {
        canonical_rows_data_14(c)
    }
    else {
        canonical_rows_data_15(c)
    }
}

} // verus!
