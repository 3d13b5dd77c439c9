use vstd::prelude::*;
use crate::constants::MATRIX_SIZE;

verus! {

/// The initial chaining value of SHA-256.
pub const PRECOMPUTED_SHA256_IV: [u32; 8] = [
    0x6a09e667, 0xbb67ae85, 0x3c6ef372, 0xa54ff53a, 0x510e527f, 0x9b05688c, 0x1f83d9ab, 0x5be0cd19,
];

/// Bytes in each of the eight tables below: 32 rows of the generating matrix.
pub const PRECOMPUTED_PART_SIZE: usize = 2048;

/// Table `p` of the eight that hold the generating matrix: 32 rows each, as
/// the block cipher gives them. It is opaque, so that a proof meets the 2048
/// bytes of a table only where it asks for them.
#[verifier::opaque]
pub open spec fn spec_precomputed_rows(p: int) -> Seq<u8> {
    if p == 0 {
        PRECOMPUTED_ROWS_0@
    } else if p == 1 {
        PRECOMPUTED_ROWS_1@
    } else if p == 2 {
        PRECOMPUTED_ROWS_2@
    } else if p == 3 {
        PRECOMPUTED_ROWS_3@
    } else if p == 4 {
        PRECOMPUTED_ROWS_4@
    } else if p == 5 {
        PRECOMPUTED_ROWS_5@
    } else if p == 6 {
        PRECOMPUTED_ROWS_6@
    } else {
        PRECOMPUTED_ROWS_7@
    }
}

/// Hands out table `p` of the eight that hold the generating matrix.
pub fn precomputed_rows(p: usize) -> (rows: &'static [u8; PRECOMPUTED_PART_SIZE])
    requires
        p < 8,
    ensures
        rows@ == spec_precomputed_rows(p as int),
{
    reveal(spec_precomputed_rows);
    if p == 0 {
        &PRECOMPUTED_ROWS_0
    } else if p == 1 {
        &PRECOMPUTED_ROWS_1
    } else if p == 2 {
        &PRECOMPUTED_ROWS_2
    } else if p == 3 {
        &PRECOMPUTED_ROWS_3
    } else if p == 4 {
        &PRECOMPUTED_ROWS_4
    } else if p == 5 {
        &PRECOMPUTED_ROWS_5
    } else if p == 6 {
        &PRECOMPUTED_ROWS_6
    } else {
        &PRECOMPUTED_ROWS_7
    }
}

/// Rows 0 to 31 of the generating matrix.
pub const PRECOMPUTED_ROWS_0: [u8; PRECOMPUTED_PART_SIZE] = [
    0x66, 0xe9, 0x4b, 0xd4, 0xef, 0x8a, 0x2c, 0x3b, 0x88, 0x4c, 0xfa, 0x59, 0xca, 0x34, 0x2b, 0x2e,
    0x47, 0x71, 0x18, 0x16, 0xe9, 0x1d, 0x6f, 0xf0, 0x59, 0xbb, 0xbf, 0x2b, 0xf5, 0x8e, 0x0f, 0xd3,
    0xbc, 0xf1, 0x76, 0xa7, 0xea, 0xad, 0x80, 0x85, 0xeb, 0xac, 0xea, 0x36, 0x24, 0x62, 0xa2, 0x81,
    0x4f, 0xfc, 0x69, 0x77, 0x2e, 0xd5, 0xa3, 0x36, 0xf4, 0x61, 0x5b, 0x45, 0x03, 0xc3, 0x48, 0x14,
    0xf8, 0x32, 0x1c, 0xf1, 0x8e, 0xf5, 0xfe, 0x72, 0x7d, 0xd8, 0x2a, 0x5c, 0x1e, 0x94, 0x51, 0x41,
    0x2f, 0x16, 0x48, 0xbc, 0x9d, 0x95, 0xc3, 0x7f, 0xee, 0x0f, 0xd7, 0x53, 0x79, 0xfb, 0x7e, 0x59,
    0x97, 0x45, 0xd7, 0xb2, 0x19, 0x72, 0xb1, 0x0b, 0x39, 0x93, 0xcc, 0x5d, 0x2f, 0xdd, 0x78, 0x8c,
    0xd2, 0x61, 0xfd, 0x7d, 0x57, 0x9b, 0x0d, 0x40, 0x33, 0xba, 0xf0, 0x6d, 0x4e, 0x35, 0xb9, 0x0e,
    0x29, 0x2c, 0x02, 0xc5, 0xcb, 0x91, 0x63, 0xc8, 0x0a, 0xc0, 0xf6, 0xcf, 0x1d, 0xd8, 0xe9, 0x2d,
    0xef, 0xcd, 0x22, 0x90, 0xb9, 0xae, 0xe1, 0x86, 0xb6, 0x96, 0xf7, 0xff, 0x3d, 0x40, 0x8b, 0xb2,
    0x61, 0x4f, 0x9d, 0x80, 0x51, 0xd3, 0x7f, 0xb6, 0x78, 0x47, 0x44, 0xd2, 0xbd, 0x19, 0x10, 0x02,
    0x29, 0x6b, 0x28, 0x69, 0x36, 0x94, 0xb8, 0xd5, 0x88, 0xd6, 0x53, 0xde, 0x98, 0xd6, 0x78, 0x08,
    0x03, 0x42, 0xfe, 0x3a, 0x60, 0xb2, 0x9e, 0xed, 0x6b, 0x8d, 0xc1, 0xc3, 0x0a, 0x0e, 0x28, 0x6b,
    0x4b, 0x9a, 0x2e, 0x49, 0x0c, 0xca, 0x08, 0xe6, 0xb3, 0x0d, 0x4e, 0x78, 0x4e, 0xf3, 0xc6, 0x8d,
    0x57, 0xd8, 0x6c, 0x36, 0xeb, 0x0c, 0xbe, 0xd1, 0x99, 0x7b, 0xad, 0xec, 0xe3, 0xa1, 0x9d, 0x5f,
    0xdd, 0x70, 0x8d, 0x2d, 0xa1, 0xe9, 0x75, 0x81, 0x45, 0x4a, 0x8c, 0xbf, 0x49, 0x48, 0x43, 0x11,
    0x67, 0x4f, 0x00, 0x2e, 0x19, 0xf6, 0xed, 0x47, 0xef, 0xf3, 0x19, 0xe5, 0x1f, 0xad, 0x44, 0x98,
    0xbd, 0x24, 0x37, 0x89, 0x28, 0xa7, 0x8e, 0x21, 0x83, 0x79, 0xb3, 0xce, 0x40, 0x49, 0x81, 0x73,
    0x04, 0xd5, 0x6c, 0x37, 0xc2, 0x6b, 0x92, 0x03, 0x2e, 0xa9, 0x0b, 0x5c, 0x3c, 0x78, 0x5f, 0x2a,
    0x9a, 0x01, 0xdf, 0x3d, 0x38, 0x33, 0x4e, 0x8d, 0x1d, 0x21, 0xbd, 0x9a, 0xdb, 0x37, 0xd8, 0x11,
    0xed, 0x11, 0x54, 0xc8, 0xdb, 0xda, 0x64, 0x18, 0xdc, 0xf0, 0x31, 0x4c, 0xb7, 0x07, 0xaa, 0xc0,
    0x17, 0x2e, 0x5d, 0x5e, 0x0e, 0x92, 0x5f, 0x56, 0xea, 0xbb, 0x69, 0x49, 0x13, 0xad, 0xa4, 0xaf,
    0xce, 0xa1, 0x2a, 0xce, 0xce, 0xd0, 0x23, 0x99, 0xa4, 0x92, 0x8f, 0x2c, 0x4b, 0xa9, 0xd4, 0x63,
    0x06, 0x8d, 0xf4, 0xaa, 0x17, 0x89, 0xf1, 0x2e, 0x6e, 0xf4, 0x0b, 0xa4, 0x33, 0x90, 0x6c, 0x05,
    0x01, 0xfe, 0x81, 0xe7, 0xbf, 0xd6, 0x24, 0x9b, 0x36, 0xea, 0x86, 0xf3, 0x5a, 0x37, 0x70, 0xa4,
    0x84, 0xaf, 0xbf, 0x3c, 0xdd, 0xac, 0xc8, 0xef, 0xc3, 0x08, 0xa8, 0x4a, 0x9c, 0x65, 0x70, 0x37,
    0x9c, 0x36, 0x1d, 0x8d, 0xaf, 0x86, 0x83, 0xf8, 0x40, 0xc1, 0xf7, 0x82, 0x16, 0x9f, 0x4b, 0x84,
    0x3c, 0x06, 0x9f, 0x67, 0x61, 0x0f, 0xad, 0x36, 0x3b, 0x86, 0x84, 0xad, 0x1e, 0x02, 0x5e, 0x02,
    0xa1, 0x74, 0xaf, 0x61, 0x0a, 0xf6, 0x65, 0x8b, 0xa5, 0x7a, 0xa1, 0x93, 0xee, 0x3f, 0x47, 0xb2,
    0xdb, 0xaf, 0x17, 0x8d, 0xfb, 0x5a, 0x49, 0x6a, 0xc8, 0xcb, 0x23, 0x64, 0xf8, 0x33, 0x12, 0xeb,
    0x2a, 0xcb, 0xa2, 0x63, 0x70, 0x75, 0xce, 0x4c, 0x91, 0x6c, 0x70, 0xdd, 0x86, 0x0d, 0xf6, 0xc7,
    0x17, 0x1f, 0x6e, 0xc9, 0x92, 0x49, 0x0d, 0x73, 0x10, 0x3a, 0x23, 0x6e, 0x85, 0x78, 0x7b, 0x1a,
    0x89, 0x05, 0x36, 0xb9, 0x97, 0xae, 0xfe, 0xc1, 0xd9, 0x40, 0x11, 0xba, 0xb6, 0x69, 0x9a, 0x03,
    0x1c, 0x51, 0xd8, 0x47, 0x9a, 0xb8, 0x6c, 0x92, 0x41, 0x95, 0x00, 0xe3, 0x52, 0x50, 0x51, 0xb0,
    0x9c, 0xf9, 0x87, 0x26, 0x85, 0x89, 0x4f, 0x15, 0x1c, 0xbe, 0x6f, 0x60, 0xa9, 0x0b, 0x7b, 0x25,
    0xa7, 0x08, 0x0f, 0x3b, 0x51, 0x78, 0xf1, 0x1c, 0xdc, 0xdb, 0x8e, 0x10, 0x69, 0xac, 0x91, 0x03,
    0x5e, 0xf9, 0x11, 0xc1, 0x2d, 0xd2, 0xaa, 0xbe, 0x4e, 0x0b, 0x21, 0xda, 0x29, 0x1d, 0xf9, 0xb6,
    0x41, 0xed, 0x30, 0x29, 0xb8, 0x98, 0xfd, 0xb3, 0xd7, 0xbb, 0xdb, 0x95, 0x30, 0x1d, 0x40, 0x53,
    0xd4, 0x1b, 0x71, 0x41, 0x99, 0xd1, 0x10, 0x54, 0x3c, 0xb0, 0x94, 0x87, 0x64, 0x8e, 0x49, 0x7c,
    0xf2, 0xcc, 0x01, 0xe6, 0x68, 0xed, 0xda, 0x16, 0xa5, 0xef, 0x3c, 0x6f, 0x13, 0x7a, 0x0c, 0x19,
    0x97, 0xd7, 0x6a, 0x4b, 0x09, 0x35, 0xd8, 0xe4, 0x02, 0x8b, 0x74, 0xb3, 0x5e, 0x9e, 0xd4, 0x9f,
    0x87, 0x13, 0xbb, 0x6a, 0xc2, 0xf3, 0xd6, 0x13, 0x91, 0xf2, 0xdb, 0xaa, 0xa4, 0x6a, 0x55, 0x4b,
    0xac, 0xfb, 0x5a, 0xe9, 0x50, 0xb9, 0x39, 0xf2, 0x59, 0xfe, 0x79, 0xc7, 0xec, 0x8b, 0xda, 0x4f,
    0x73, 0x1e, 0xde, 0x12, 0x99, 0xc4, 0xed, 0x61, 0x15, 0x25, 0xec, 0x53, 0x8f, 0xe8, 0x7c, 0x16,
    0xe1, 0x23, 0x46, 0x02, 0xc2, 0xd5, 0x0f, 0x33, 0x8e, 0xd5, 0xa8, 0x44, 0x03, 0xe2, 0x38, 0x8b,
    0x75, 0xbd, 0x21, 0x52, 0x77, 0xbe, 0xb7, 0xd1, 0xbc, 0x32, 0xb2, 0xc7, 0x0e, 0x29, 0x20, 0x0d,
    0x41, 0x0d, 0xcb, 0x4a, 0xaf, 0x7a, 0x32, 0xee, 0x23, 0x2d, 0xc2, 0x54, 0x75, 0x24, 0xe8, 0x15,
    0xd3, 0x9f, 0xaf, 0xac, 0x83, 0xe9, 0x0c, 0xc1, 0xd2, 0x6e, 0x62, 0x71, 0x39, 0xc9, 0x2b, 0x01,
    0xd4, 0x2c, 0x70, 0xe0, 0x13, 0x8d, 0x6a, 0x66, 0x87, 0x4d, 0x26, 0xa8, 0x04, 0x27, 0x8f, 0xe4,
    0xae, 0x8d, 0x76, 0x2b, 0xd3, 0xd9, 0x10, 0xb4, 0xed, 0xd3, 0x2b, 0x0b, 0x3a, 0xea, 0x70, 0x96,
    0xf4, 0xbd, 0xb1, 0xdc, 0xe4, 0x13, 0x88, 0x20, 0x5e, 0xbe, 0x3b, 0x96, 0x43, 0x0f, 0xbf, 0x55,
    0x33, 0xb8, 0xf8, 0x9e, 0xa3, 0x26, 0x45, 0xd9, 0x8f, 0x54, 0xa1, 0xdd, 0x2c, 0xf9, 0x39, 0x0c,
    0x6a, 0x70, 0x6c, 0xf8, 0xad, 0x0f, 0x57, 0xdb, 0xf9, 0xae, 0xc3, 0x65, 0xa9, 0x2c, 0x78, 0xe9,
    0x85, 0x50, 0xa4, 0x43, 0x4a, 0xb1, 0x3a, 0xff, 0x72, 0x55, 0xcb, 0xfd, 0xd6, 0xb3, 0xd2, 0x1a,
    0x04, 0x44, 0x45, 0xcc, 0x89, 0x89, 0x4a, 0x7e, 0xce, 0x1b, 0x86, 0x63, 0xb8, 0x1c, 0x91, 0x90,
    0xd5, 0xa5, 0x9f, 0x2a, 0x05, 0xda, 0xa5, 0x25, 0x50, 0xd9, 0xa9, 0x3d, 0xfd, 0x98, 0x62, 0x07,
    0x81, 0x76, 0x50, 0xb8, 0x0f, 0xb5, 0xb1, 0xdb, 0xb0, 0x1f, 0xb0, 0x4b, 0x42, 0xca, 0x34, 0xba,
    0x4c, 0x44, 0x20, 0x5e, 0x18, 0x13, 0xcf, 0x0a, 0xe9, 0x83, 0x04, 0xe0, 0x49, 0x80, 0xbc, 0x22,
    0xb0, 0x93, 0xc3, 0x30, 0xc3, 0x2e, 0xb2, 0xb8, 0x16, 0xe4, 0xce, 0xcb, 0x2d, 0x78, 0xdb, 0x6f,
    0x24, 0x82, 0x1a, 0xe1, 0x2a, 0xba, 0x21, 0x11, 0x40, 0x51, 0x5e, 0xf0, 0x96, 0xb2, 0x8d, 0x1b,
    0x95, 0xff, 0x8d, 0x85, 0xa9, 0xb6, 0xf5, 0x42, 0x05, 0xd1, 0x7c, 0x77, 0xa7, 0xf8, 0x8a, 0xea,
    0x11, 0x30, 0xbc, 0x55, 0x98, 0x5f, 0x65, 0x41, 0x83, 0xf6, 0x55, 0x83, 0xe0, 0x2d, 0x3b, 0x20,
    0xe7, 0xbe, 0x1b, 0xad, 0xaa, 0x6a, 0xcb, 0xf6, 0xd5, 0x3d, 0x62, 0xff, 0x73, 0x6e, 0xed, 0xe0,
    0x6e, 0x89, 0x99, 0xb5, 0x1a, 0x39, 0x1e, 0x98, 0x8f, 0xc4, 0x33, 0x84, 0xee, 0xf1, 0x14, 0x1a,
    0x2e, 0x04, 0x45, 0xf6, 0x1d, 0x36, 0xbf, 0xa7, 0xe2, 0x77, 0x07, 0x07, 0x30, 0xcf, 0x76, 0xda,
    0x09, 0x18, 0x1a, 0x18, 0xcc, 0xd5, 0x19, 0x50, 0x92, 0x4f, 0xa8, 0xfb, 0x92, 0xf1, 0xf1, 0x57,
    0x1d, 0xd5, 0x88, 0xf3, 0xbc, 0x5b, 0x5a, 0x92, 0x41, 0x8d, 0x8b, 0x4a, 0x9f, 0x27, 0xac, 0x3e,
    0x02, 0x13, 0x0f, 0x38, 0x32, 0xbd, 0xcc, 0xf1, 0x51, 0xbd, 0x53, 0x8a, 0x10, 0xae, 0x8f, 0x10,
    0x9c, 0x4e, 0xfe, 0xe0, 0x3d, 0x2c, 0xe0, 0x13, 0x6e, 0x61, 0xac, 0x50, 0xb7, 0x62, 0x14, 0xbe,
    0x5c, 0x32, 0x0b, 0x9c, 0x39, 0x64, 0x65, 0xc6, 0x10, 0x6e, 0x9f, 0x8a, 0x89, 0x45, 0x1b, 0xcc,
    0xe7, 0x48, 0x45, 0xec, 0xd9, 0x61, 0xef, 0x20, 0x47, 0x75, 0x6d, 0xfb, 0x05, 0x00, 0x47, 0xfc,
    0x81, 0x5f, 0xc8, 0x92, 0x73, 0x49, 0x8b, 0x66, 0x06, 0x0e, 0x1e, 0x50, 0x0f, 0xf6, 0x51, 0x11,
    0x99, 0x88, 0x5e, 0x3c, 0x7c, 0x0d, 0xad, 0xe3, 0xf1, 0xfe, 0x9b, 0xd9, 0x62, 0xb8, 0xfb, 0x8d,
    0x1b, 0x70, 0xb2, 0xb4, 0xb8, 0x1d, 0x75, 0x75, 0xeb, 0x3b, 0xb7, 0xa8, 0x1d, 0x8b, 0x2c, 0x2b,
    0x80, 0xe6, 0x33, 0xa1, 0x69, 0x1c, 0x3c, 0x7e, 0xbf, 0x69, 0x12, 0x4d, 0x46, 0x3e, 0x18, 0xae,
    0xc2, 0x9a, 0x14, 0x97, 0xc9, 0xab, 0x3c, 0x76, 0xf7, 0x37, 0xd2, 0xc1, 0x6d, 0xf7, 0xdc, 0x09,
    0x03, 0x9a, 0xb2, 0xcd, 0x6f, 0xa9, 0x0c, 0xc5, 0x79, 0x1a, 0x57, 0x90, 0x89, 0xca, 0x08, 0x59,
    0xe3, 0xad, 0x84, 0xe1, 0xb8, 0xdb, 0x38, 0xdf, 0x41, 0x71, 0xa3, 0xb4, 0x17, 0xfc, 0x2b, 0x2c,
    0x65, 0x7f, 0x0b, 0xa1, 0x3c, 0xaa, 0xb7, 0xde, 0x6c, 0x7a, 0x66, 0x76, 0x7f, 0xab, 0x71, 0xe4,
    0x3d, 0x90, 0x64, 0x7f, 0xd2, 0xe4, 0xb6, 0x6e, 0x83, 0xd5, 0x34, 0xad, 0xfd, 0x00, 0x9a, 0x0a,
    0xc5, 0x00, 0x11, 0x85, 0xbc, 0xb4, 0xb3, 0xcb, 0xb1, 0xa1, 0x53, 0xab, 0x3b, 0x8f, 0x8e, 0x82,
    0x35, 0x72, 0x97, 0x8d, 0xbb, 0x56, 0xc1, 0x5c, 0x61, 0x10, 0x84, 0x02, 0xaa, 0x08, 0xc1, 0x1f,
    0x8b, 0x62, 0x16, 0x2a, 0x9f, 0xbb, 0xc5, 0x2b, 0xf7, 0x3b, 0xc0, 0xa9, 0x5d, 0x69, 0xdf, 0xf1,
    0xf1, 0x34, 0x23, 0x0a, 0x59, 0x60, 0xaa, 0xf9, 0x4a, 0x61, 0x03, 0x02, 0x3f, 0xbb, 0xbf, 0x17,
    0x7f, 0x68, 0xfe, 0x65, 0x3b, 0xd6, 0x8a, 0xe1, 0x7b, 0xa8, 0x67, 0xa1, 0x1c, 0xe6, 0x15, 0xa8,
    0x91, 0xb4, 0xea, 0x63, 0x27, 0x21, 0x9d, 0x8e, 0x2f, 0xbc, 0xa6, 0xa5, 0xc4, 0x63, 0xc2, 0xc1,
    0xa3, 0x23, 0x05, 0x83, 0x3a, 0xd4, 0xa5, 0xc9, 0x42, 0x01, 0xa0, 0x35, 0x97, 0x55, 0x94, 0x8b,
    0x86, 0xc3, 0x74, 0x93, 0x72, 0x40, 0xd6, 0xf3, 0x98, 0x9b, 0x48, 0x35, 0x00, 0xcc, 0x36, 0x1f,
    0x2a, 0x06, 0x74, 0xa7, 0x82, 0xee, 0x3f, 0xc8, 0x9c, 0xbc, 0x59, 0x7a, 0xa3, 0xf1, 0xb9, 0x5f,
    0x89, 0x87, 0x64, 0x8d, 0xb9, 0x9f, 0x39, 0x67, 0x19, 0xd6, 0xa9, 0x7d, 0x1e, 0x3f, 0x96, 0x6f,
    0xf3, 0x29, 0x74, 0x5b, 0x36, 0xae, 0x77, 0x20, 0xb5, 0x36, 0xef, 0x05, 0xed, 0x24, 0x31, 0xbb,
    0xc8, 0x05, 0xd6, 0xcf, 0x73, 0xc2, 0x00, 0x5d, 0x13, 0x60, 0xde, 0x48, 0xa6, 0x76, 0x35, 0x0d,
    0xcc, 0xb1, 0x58, 0x7f, 0x17, 0x05, 0x38, 0xe4, 0xeb, 0x81, 0x38, 0x86, 0xf7, 0x79, 0x20, 0x14,
    0x11, 0x60, 0x88, 0x61, 0x5c, 0x74, 0x46, 0x4d, 0x2a, 0xe7, 0xf9, 0x72, 0xd6, 0x51, 0xf7, 0x0a,
    0x1a, 0x84, 0x50, 0xb8, 0x89, 0xaf, 0x1f, 0x23, 0x0d, 0xfc, 0x37, 0x51, 0x26, 0x2a, 0x7b, 0xe5,
    0x79, 0xfc, 0xd4, 0x0e, 0x57, 0xb0, 0x69, 0xd2, 0x67, 0x00, 0xbd, 0xa0, 0xda, 0x19, 0x33, 0x01,
    0x9b, 0xde, 0x0f, 0x25, 0x9d, 0x75, 0x2f, 0xf3, 0x4b, 0x1c, 0x8c, 0xdc, 0x69, 0x3b, 0xb8, 0xdd,
    0xd5, 0x4c, 0x86, 0xc1, 0x56, 0xab, 0x15, 0x12, 0xa8, 0x7a, 0xf0, 0x97, 0x10, 0xd1, 0x5f, 0xda,
    0x72, 0xf0, 0xb5, 0x04, 0xa0, 0x2f, 0xf4, 0x8e, 0xd5, 0xa4, 0x76, 0x71, 0x3d, 0xec, 0x67, 0x2b,
    0xfd, 0x8d, 0xb6, 0xf7, 0x19, 0x7a, 0xb9, 0xde, 0x85, 0x8d, 0xec, 0x00, 0x0b, 0xd8, 0xad, 0x0c,
    0x9b, 0xa6, 0x1c, 0xd2, 0x0b, 0x35, 0x3a, 0xd2, 0xc4, 0x1c, 0x68, 0x32, 0x98, 0xde, 0x61, 0x66,
    0xec, 0x95, 0xcf, 0xc9, 0xe5, 0x97, 0x6d, 0x60, 0xc7, 0xe6, 0xf2, 0xb6, 0x62, 0x3c, 0xb5, 0x39,
    0x50, 0x87, 0xbd, 0x0c, 0x25, 0x4c, 0xbd, 0x08, 0x45, 0x67, 0xa4, 0xde, 0xa5, 0xbd, 0xe1, 0xdc,
    0xc9, 0xdd, 0xb7, 0x26, 0xd5, 0xba, 0x92, 0xc6, 0x7a, 0xc7, 0xf5, 0xd3, 0x24, 0x96, 0x33, 0x0d,
    0x89, 0x02, 0xee, 0xfe, 0xfc, 0xf0, 0x66, 0x52, 0xca, 0x84, 0xc5, 0xdb, 0xd6, 0x32, 0xd2, 0x0a,
    0x45, 0xf0, 0x10, 0x62, 0x25, 0xcc, 0xf6, 0xe2, 0x27, 0xe5, 0xf5, 0xf7, 0x7a, 0xff, 0x9b, 0xc1,
    0x96, 0xba, 0x45, 0x1b, 0x94, 0xa6, 0x71, 0x48, 0x1b, 0xba, 0x3f, 0xfb, 0x75, 0xcf, 0x33, 0x36,
    0x67, 0x9a, 0x3c, 0x50, 0x70, 0x09, 0x66, 0xad, 0x5b, 0xd6, 0xe8, 0x5d, 0x69, 0x31, 0x96, 0x08,
    0x3c, 0xc8, 0xa5, 0x38, 0x95, 0xcf, 0x94, 0xde, 0xc0, 0x70, 0xe1, 0x3e, 0xf3, 0x51, 0x25, 0x7d,
    0xf1, 0x69, 0xfd, 0x9d, 0x4d, 0x56, 0x73, 0x4a, 0xf3, 0xfb, 0x46, 0xbc, 0xa6, 0x33, 0x36, 0x0d,
    0xae, 0x43, 0x1b, 0x17, 0x1a, 0xb6, 0x29, 0x36, 0xc1, 0x18, 0x5d, 0x80, 0xcd, 0x1d, 0x99, 0xa2,
    0x37, 0x52, 0x3d, 0x6b, 0xf6, 0xd5, 0x0e, 0x8b, 0xea, 0xc5, 0xb6, 0x7c, 0x45, 0x12, 0x2b, 0x18,
    0xc9, 0xaf, 0xe2, 0x2f, 0xda, 0xed, 0x18, 0x6e, 0x88, 0x06, 0xc9, 0x52, 0xfd, 0xc5, 0x98, 0x5e,
    0xc1, 0x5e, 0x31, 0x1d, 0xb9, 0xf2, 0x36, 0x15, 0xaa, 0xf7, 0x50, 0x84, 0xf6, 0x3f, 0xd6, 0x70,
    0xd4, 0x07, 0x9a, 0xeb, 0x1d, 0xf6, 0x75, 0xdf, 0x86, 0x3e, 0x12, 0x87, 0x46, 0x02, 0xaf, 0x6d,
    0x0d, 0x3d, 0xba, 0x07, 0x59, 0xe6, 0x40, 0xba, 0x0a, 0x3c, 0x50, 0x75, 0x3f, 0x62, 0x9b, 0x11,
    0xa1, 0x8a, 0x11, 0x01, 0xd9, 0xd2, 0x2b, 0x5c, 0x32, 0x9d, 0xdc, 0x3f, 0x2a, 0xec, 0x5d, 0x0e,
    0xe1, 0x2e, 0x05, 0x76, 0x76, 0x27, 0x3b, 0x10, 0x7e, 0x0f, 0xdc, 0x88, 0x71, 0xf8, 0x29, 0x15,
    0x9c, 0xce, 0xda, 0x0c, 0x49, 0x44, 0xa5, 0x9e, 0x95, 0x5b, 0xb9, 0x75, 0x78, 0x6a, 0xde, 0x08,
    0x85, 0x70, 0x94, 0xdf, 0xdd, 0x7d, 0x74, 0xbf, 0x48, 0x52, 0x14, 0x52, 0x49, 0x31, 0x4a, 0x1a,
    0x34, 0x1a, 0xd9, 0xe5, 0xc7, 0x2f, 0x83, 0x03, 0x11, 0x85, 0x57, 0xa7, 0xb6, 0x2a, 0x94, 0x87,
    0x66, 0x50, 0x8d, 0x89, 0x32, 0xb5, 0x75, 0x7b, 0xdb, 0x04, 0x6c, 0xbd, 0xd2, 0x0b, 0xfc, 0x0a,
    0x3d, 0x76, 0x8a, 0x24, 0xa6, 0xf4, 0x2b, 0x5d, 0x47, 0x43, 0x74, 0x9c, 0xd3, 0x87, 0xc2, 0x20,
    0xbd, 0x6f, 0xce, 0x0d, 0x06, 0xea, 0xf6, 0x73, 0x48, 0xba, 0x09, 0x0d, 0x33, 0x57, 0x54, 0x14,
    0x52, 0xb0, 0xa5, 0xbd, 0xd5, 0xe9, 0xf7, 0x4a, 0x53, 0x60, 0x7a, 0x93, 0xf1, 0x27, 0xa8, 0xca,
    0x0c, 0xde, 0xdc, 0x5a, 0xda, 0xea, 0xdc, 0x71, 0xe9, 0xcf, 0xd0, 0x05, 0xe4, 0x5f, 0xda, 0x60,
    0xde, 0xac, 0x78, 0xf3, 0xcd, 0xb4, 0x67, 0x76, 0x08, 0x3c, 0xfd, 0x88, 0x3b, 0x34, 0xa7, 0xa1,
    0x2b, 0xed, 0x6e, 0x9e, 0x66, 0x72, 0x46, 0x97, 0x70, 0xe5, 0x13, 0x8c, 0xfc, 0xa8, 0x83, 0x06,
];

/// Rows 32 to 63 of the generating matrix.
pub const PRECOMPUTED_ROWS_1: [u8; PRECOMPUTED_PART_SIZE] = [
    0x77, 0x0f, 0x74, 0xae, 0x04, 0xa2, 0xa4, 0x35, 0xb9, 0xa7, 0x25, 0x6e, 0x49, 0x37, 0x8f, 0x5b,
    0xd0, 0x11, 0xe1, 0xa4, 0xa5, 0x46, 0x0c, 0xc2, 0x27, 0xc7, 0x01, 0x5b, 0xb0, 0x3e, 0xa9, 0x51,
    0x9f, 0x4a, 0xcd, 0x1c, 0x02, 0x40, 0x21, 0x0c, 0xac, 0xfb, 0x85, 0xdd, 0x8f, 0xff, 0xf4, 0x84,
    0x9a, 0x56, 0x32, 0x0a, 0x27, 0x5d, 0x20, 0x0d, 0xef, 0x4e, 0x4a, 0x37, 0x2c, 0x82, 0x85, 0x18,
    0x5b, 0x2c, 0xf0, 0x9c, 0xf8, 0x35, 0x10, 0x40, 0x33, 0x7b, 0x7b, 0xfa, 0x93, 0xd5, 0x59, 0x88,
    0xce, 0xe1, 0x6c, 0x55, 0xaa, 0xf1, 0x88, 0xf8, 0xd4, 0x2d, 0xe9, 0x9c, 0xe3, 0xfe, 0xb0, 0x05,
    0x6d, 0xcc, 0x8a, 0x95, 0x1d, 0xe9, 0x3f, 0xaf, 0x0a, 0x1d, 0x18, 0x93, 0x5b, 0xf9, 0x0f, 0x94,
    0xf9, 0x42, 0x89, 0x1b, 0x95, 0x7a, 0x95, 0x13, 0x8c, 0x84, 0x95, 0xee, 0xfa, 0xa0, 0x69, 0x05,
    0x60, 0x72, 0x51, 0xd1, 0x1d, 0x9e, 0x40, 0x80, 0x78, 0x7d, 0xae, 0xe0, 0x77, 0xe4, 0xb3, 0xe4,
    0xcb, 0x2d, 0x97, 0x4c, 0x35, 0xd1, 0x5b, 0xe9, 0x3b, 0x27, 0x45, 0x04, 0x78, 0x50, 0xc0, 0xed,
    0xae, 0xe4, 0xf4, 0xc1, 0xb5, 0x1c, 0x35, 0xc7, 0x64, 0xba, 0xdd, 0xda, 0x08, 0xc2, 0x75, 0x52,
    0x88, 0x00, 0x81, 0xf3, 0xb5, 0xda, 0x7f, 0x2f, 0x3a, 0x33, 0x5b, 0x37, 0x4e, 0xa4, 0xf1, 0x05,
    0x62, 0x72, 0x59, 0x97, 0x68, 0x72, 0x60, 0xaa, 0x3f, 0xc9, 0xf1, 0xd8, 0x55, 0x70, 0xe1, 0x3e,
    0x3e, 0xae, 0x06, 0x13, 0x24, 0x15, 0xb6, 0xa5, 0x0d, 0x85, 0xea, 0x90, 0x9c, 0x3e, 0x98, 0x74,
    0xa3, 0xa7, 0xc7, 0x14, 0x2a, 0x72, 0x05, 0x88, 0x38, 0x10, 0x74, 0x47, 0xad, 0x26, 0xa3, 0xbf,
    0x5e, 0x82, 0x77, 0x88, 0xec, 0x69, 0x1e, 0x6a, 0x6b, 0x73, 0xb2, 0x91, 0x0e, 0x52, 0xe3, 0x12,
    0x75, 0xb8, 0x0f, 0x05, 0x2b, 0x02, 0xcb, 0xbd, 0x11, 0xb2, 0xb5, 0x76, 0x82, 0xfd, 0x72, 0x60,
    0x45, 0xb9, 0xe0, 0xdf, 0x2c, 0xb1, 0xbf, 0x51, 0x7d, 0x81, 0x9a, 0x90, 0x20, 0xd1, 0x6b, 0x1d,
    0x72, 0x8e, 0xa5, 0x69, 0x9f, 0xa3, 0xcc, 0xa8, 0x9d, 0xbc, 0x0d, 0x9a, 0xb9, 0x98, 0xdf, 0x8d,
    0x94, 0x1b, 0x1b, 0x76, 0xc6, 0xb1, 0xbe, 0x04, 0xe1, 0x1c, 0x53, 0x59, 0x02, 0xcc, 0xa9, 0x06,
    0x26, 0xa3, 0xff, 0x92, 0x69, 0x4b, 0x4a, 0x36, 0x06, 0x13, 0x5d, 0xf4, 0x2e, 0xdf, 0x84, 0xb9,
    0x83, 0xfd, 0x14, 0x3b, 0x61, 0x95, 0xa4, 0x12, 0x8d, 0xb6, 0xe3, 0x4a, 0xe7, 0x51, 0xc1, 0x11,
    0xdd, 0x8a, 0x00, 0x9d, 0x0c, 0x6e, 0x4c, 0x2b, 0x97, 0x87, 0xd7, 0xc5, 0x51, 0x1b, 0xdf, 0xc8,
    0x7b, 0x0c, 0xe6, 0x70, 0x68, 0x99, 0xaf, 0x53, 0x68, 0x4a, 0x63, 0xab, 0xe7, 0xe6, 0x3b, 0x09,
    0xea, 0xe7, 0x06, 0x93, 0x62, 0xb1, 0x6f, 0xc5, 0xd6, 0x53, 0x65, 0x05, 0x94, 0x1a, 0x44, 0x52,
    0x4f, 0x60, 0x40, 0x59, 0x97, 0x50, 0x93, 0xec, 0xdc, 0x18, 0x66, 0xef, 0x41, 0x82, 0x0e, 0x5e,
    0x7c, 0xc0, 0x67, 0xc3, 0x3b, 0x04, 0x72, 0x3d, 0x59, 0xd0, 0x3c, 0xce, 0x0f, 0x24, 0xc5, 0xb0,
    0x22, 0x42, 0xe7, 0x35, 0x75, 0x0d, 0x12, 0x9a, 0x0c, 0x04, 0x2a, 0x5c, 0xd0, 0x9c, 0xc5, 0x10,
    0xb7, 0x7e, 0x95, 0x21, 0x07, 0x09, 0x3a, 0x83, 0x74, 0x7c, 0xa3, 0xbe, 0x55, 0x94, 0xb6, 0x6a,
    0x46, 0xc8, 0x36, 0x58, 0xb5, 0xd4, 0x08, 0x19, 0x5e, 0xfd, 0xe4, 0xa0, 0xd2, 0x3b, 0x47, 0x07,
    0xc0, 0x7c, 0xbe, 0xc5, 0x74, 0x19, 0xf1, 0x55, 0xa1, 0xf4, 0x33, 0x56, 0x5b, 0x91, 0xf0, 0x96,
    0x2c, 0xbe, 0x54, 0x69, 0x51, 0x78, 0x25, 0x8b, 0x50, 0x2b, 0x4a, 0xda, 0x1c, 0x1f, 0xbd, 0x0d,
    0xaa, 0x01, 0xbb, 0xf0, 0x9c, 0xf6, 0x2e, 0x56, 0x19, 0x7e, 0xe2, 0xfb, 0xe5, 0x08, 0x70, 0x7a,
    0xaa, 0x07, 0x19, 0x8d, 0xc4, 0x5d, 0x46, 0x09, 0xde, 0xbe, 0x06, 0x45, 0x3b, 0x08, 0x74, 0x7c,
    0xa8, 0xd0, 0xcc, 0xed, 0x3a, 0x0e, 0xa4, 0x22, 0x10, 0xb1, 0x48, 0xb3, 0xd3, 0x47, 0x88, 0xb0,
    0x19, 0x7f, 0xe8, 0x75, 0x62, 0xe1, 0x76, 0x69, 0x3f, 0xb1, 0xe8, 0x19, 0x9b, 0x4e, 0x83, 0x19,
    0xaa, 0xc6, 0xbf, 0x3c, 0xd4, 0x99, 0xba, 0x57, 0xc0, 0x5b, 0x38, 0x76, 0x3b, 0xd6, 0x2d, 0x6a,
    0x7a, 0xea, 0xa9, 0x5a, 0x9a, 0xa6, 0x4b, 0xb4, 0xbd, 0xc7, 0x21, 0xb4, 0x33, 0xad, 0x9c, 0x3c,
    0xfd, 0xb2, 0x78, 0xe9, 0x34, 0x22, 0x25, 0xd9, 0xc8, 0xec, 0x04, 0xcb, 0x1c, 0x64, 0xb6, 0x3c,
    0x00, 0x24, 0x16, 0x99, 0x7c, 0x44, 0xc3, 0x7a, 0xd1, 0xb4, 0x49, 0xd4, 0x2c, 0xef, 0xd3, 0x1d,
    0xe5, 0x91, 0x9f, 0x29, 0x60, 0xb0, 0x5d, 0xb5, 0xcb, 0xe9, 0x69, 0x0d, 0x9d, 0x7e, 0xa7, 0x07,
    0xaf, 0x8e, 0x2e, 0x0f, 0x83, 0xf8, 0xe4, 0xb5, 0x15, 0x22, 0xa9, 0x6a, 0x3d, 0x73, 0x78, 0x34,
    0x49, 0x21, 0xb6, 0x8e, 0x5d, 0xe7, 0x76, 0xf1, 0x0e, 0xb6, 0x66, 0xde, 0x4f, 0x85, 0xad, 0x27,
    0xf8, 0x3d, 0x52, 0x76, 0xa0, 0xd4, 0xfe, 0x62, 0x12, 0x54, 0x5e, 0xa7, 0x4d, 0x54, 0x4e, 0x18,
    0x2f, 0x58, 0x91, 0x3a, 0x48, 0xe7, 0x0d, 0x06, 0x8a, 0x49, 0x2d, 0x72, 0x0c, 0x68, 0x90, 0xb2,
    0xb6, 0x37, 0x8e, 0xee, 0xfc, 0x19, 0xea, 0x6a, 0x33, 0x9e, 0x28, 0xae, 0x0f, 0x69, 0x9b, 0x17,
    0xab, 0x4c, 0x2d, 0x0c, 0xde, 0x97, 0x72, 0xdb, 0x5a, 0x21, 0xb4, 0xb0, 0x2a, 0xc1, 0x9e, 0x1b,
    0x67, 0xe1, 0x91, 0x34, 0x29, 0x34, 0xbe, 0x9e, 0x11, 0x49, 0xa2, 0xfa, 0x77, 0xa1, 0x89, 0x00,
    0x9b, 0x5b, 0xa6, 0x41, 0x84, 0xf6, 0x59, 0x1c, 0xe7, 0x3b, 0xa3, 0x49, 0xb8, 0xc4, 0x7c, 0x7a,
    0xb8, 0x78, 0x9d, 0x96, 0x9d, 0x55, 0xdc, 0x73, 0xaa, 0x10, 0xdf, 0x22, 0x19, 0x97, 0x62, 0x7c,
    0x6a, 0xea, 0xf2, 0xf2, 0xaa, 0xd9, 0xd3, 0x61, 0xda, 0x76, 0xd0, 0x21, 0xf0, 0xaa, 0x99, 0x09,
    0xcb, 0x26, 0x69, 0x41, 0xfd, 0x7c, 0x21, 0xae, 0x6c, 0x15, 0xda, 0x9a, 0x5a, 0xb8, 0xc8, 0x05,
    0xbf, 0xce, 0xc6, 0x07, 0xbc, 0x19, 0x69, 0x3b, 0x7f, 0x9f, 0xe6, 0x38, 0x29, 0xf4, 0x0b, 0xa1,
    0x07, 0x81, 0x32, 0xe6, 0x2c, 0x09, 0xa6, 0x70, 0xef, 0xe3, 0x9f, 0x69, 0x67, 0x45, 0xe9, 0x56,
    0x88, 0xe6, 0x5f, 0xc8, 0x43, 0xa9, 0x50, 0xc0, 0x2a, 0xdd, 0x35, 0x50, 0xe7, 0x2d, 0xc0, 0x60,
    0x71, 0x3b, 0x53, 0x9e, 0x4e, 0xed, 0xd5, 0x2d, 0x6d, 0xf1, 0xf3, 0x7f, 0x53, 0x9a, 0x55, 0x10,
    0x41, 0x76, 0x9f, 0x92, 0xc4, 0xb2, 0x18, 0xc9, 0xd6, 0xce, 0xee, 0x86, 0x5d, 0x27, 0x46, 0x8a,
    0x3f, 0xa0, 0x7e, 0xb3, 0x4e, 0x9d, 0x53, 0xb0, 0xc2, 0xeb, 0xe3, 0x0c, 0x5e, 0xf9, 0xef, 0x84,
    0xb0, 0xdb, 0x72, 0x41, 0xb7, 0x32, 0xa4, 0x46, 0x9c, 0x43, 0xb0, 0x67, 0xcb, 0x39, 0x49, 0x30,
    0x27, 0xc8, 0xb8, 0x99, 0xc7, 0xd6, 0x98, 0x4c, 0xdc, 0x9c, 0xaf, 0xe5, 0x02, 0x1a, 0xca, 0x1e,
    0xf4, 0x28, 0xb9, 0xa6, 0xb1, 0x70, 0xcc, 0x1d, 0xcf, 0x96, 0x89, 0x7b, 0xbe, 0x0d, 0x81, 0x11,
    0x55, 0xf1, 0x54, 0xd5, 0x07, 0xf7, 0xb7, 0xb8, 0x5c, 0xe3, 0x46, 0x26, 0xc5, 0xc9, 0xd1, 0x00,
    0x4e, 0xc5, 0x5a, 0xc6, 0xd5, 0x96, 0xb2, 0x76, 0x21, 0x81, 0x03, 0xb5, 0xb3, 0x7e, 0x8a, 0x91,
    0x76, 0x39, 0xab, 0x6b, 0x75, 0x8c, 0xf6, 0x53, 0xa3, 0x14, 0x09, 0x52, 0xeb, 0x20, 0x9d, 0x18,
    0x87, 0xac, 0x63, 0x75, 0x50, 0x58, 0x57, 0x30, 0x83, 0x24, 0x7f, 0x0d, 0x47, 0x13, 0xad, 0xdd,
    0x44, 0x8f, 0x5c, 0x9f, 0xc3, 0x2a, 0xa0, 0xfd, 0x50, 0x7a, 0x3b, 0x0d, 0x41, 0x01, 0xeb, 0xd1,
    0x5c, 0x45, 0xa0, 0x05, 0x29, 0xf8, 0xb9, 0x4d, 0xdf, 0x5c, 0xbe, 0x68, 0x77, 0xf8, 0x19, 0xad,
    0xcc, 0x2e, 0x17, 0xbb, 0x78, 0xf8, 0x8e, 0x1a, 0x8c, 0x83, 0x32, 0x8d, 0x6d, 0x1b, 0xa4, 0x0f,
    0x0e, 0xe6, 0x48, 0x21, 0xb7, 0x59, 0xa1, 0xdf, 0x2c, 0x88, 0xfe, 0xd1, 0x73, 0x34, 0x8e, 0x99,
    0xfd, 0xc8, 0x70, 0xc4, 0xdd, 0x2f, 0x06, 0x25, 0xbe, 0x43, 0x61, 0xe9, 0xb0, 0x17, 0xef, 0xed,
    0x8c, 0x6c, 0x30, 0xa4, 0xce, 0x65, 0x40, 0x5d, 0xde, 0x44, 0xdd, 0x26, 0xcb, 0x2c, 0xaa, 0x6a,
    0x6f, 0x04, 0xf7, 0xcd, 0x2e, 0x03, 0xe6, 0x8b, 0x0c, 0xc8, 0xab, 0x7c, 0x6e, 0x37, 0x05, 0x0d,
    0xd7, 0xca, 0xe9, 0x05, 0x31, 0x21, 0xb7, 0xe5, 0x3c, 0xc7, 0xa9, 0xd0, 0x96, 0x4a, 0x78, 0x47,
    0x2d, 0x10, 0x8d, 0x35, 0x80, 0xe0, 0x3a, 0x53, 0x3b, 0x78, 0x46, 0x35, 0xea, 0x57, 0xbe, 0x12,
    0xfb, 0xf7, 0x54, 0xf7, 0xbe, 0x11, 0x26, 0x44, 0x01, 0xe0, 0x6b, 0xf6, 0xe7, 0x52, 0x68, 0xb3,
    0xf7, 0x12, 0x84, 0xd6, 0xcf, 0x66, 0xeb, 0x64, 0x7c, 0x45, 0xe0, 0xd8, 0x8f, 0xa9, 0x71, 0x0c,
    0xd2, 0x14, 0x34, 0xa7, 0x2c, 0x9b, 0x94, 0xec, 0xd1, 0x1e, 0x64, 0xae, 0xa4, 0xff, 0xbc, 0xd1,
    0x18, 0x2b, 0x21, 0x94, 0xfa, 0xfd, 0x2c, 0x74, 0xad, 0x1c, 0xab, 0xae, 0xcf, 0x6e, 0x6c, 0x23,
    0x14, 0x9c, 0x3b, 0x58, 0x4c, 0x1f, 0xb4, 0xc6, 0x6f, 0xf6, 0x9b, 0xbe, 0x2b, 0xcb, 0xca, 0x6e,
    0x94, 0xc2, 0x9f, 0xf0, 0xf7, 0x20, 0x6f, 0x0a, 0x3b, 0xa5, 0x14, 0xc5, 0xf1, 0x05, 0xb4, 0x1a,
    0x4e, 0xf4, 0x48, 0x87, 0xee, 0xcd, 0x9f, 0x5a, 0x95, 0xcd, 0x2d, 0x2b, 0x6b, 0xab, 0x14, 0xf9,
    0xff, 0xfd, 0xb0, 0xbe, 0x26, 0x53, 0x56, 0xb4, 0x40, 0xf4, 0xb1, 0xf7, 0x72, 0xe1, 0x60, 0x42,
    0x69, 0x04, 0x72, 0x40, 0x39, 0xe5, 0x27, 0x1b, 0x40, 0x44, 0x23, 0x20, 0x6e, 0xbc, 0xb8, 0x54,
    0xb3, 0x2d, 0xfe, 0xde, 0x80, 0xcd, 0xce, 0xe4, 0x9a, 0x42, 0xd1, 0x29, 0xd0, 0xd5, 0x2d, 0x0e,
    0xe4, 0x13, 0xbf, 0x0d, 0x0b, 0x24, 0xf1, 0x8d, 0x0d, 0x9e, 0x0a, 0x73, 0xb3, 0x93, 0xd0, 0x1c,
    0xfe, 0xc0, 0x07, 0xb4, 0x88, 0x15, 0xde, 0x1a, 0x77, 0x2d, 0x10, 0x47, 0x5c, 0xd0, 0x2a, 0xe2,
    0x9a, 0x07, 0x03, 0x9f, 0xf6, 0x41, 0x60, 0xf8, 0xcf, 0x33, 0x77, 0xfc, 0x4c, 0x63, 0xc7, 0xb0,
    0x76, 0x2f, 0x51, 0x9d, 0x45, 0xbf, 0x60, 0x88, 0xbc, 0x91, 0x64, 0xa9, 0xfd, 0x94, 0x74, 0x02,
    0xf9, 0x83, 0xde, 0xc8, 0xe5, 0x66, 0x5e, 0xad, 0x3d, 0x61, 0x73, 0xc1, 0xfd, 0xd1, 0xb6, 0xa5,
    0x2d, 0xc8, 0x6a, 0x15, 0x92, 0x27, 0x33, 0x58, 0xea, 0x90, 0x0f, 0x5c, 0x53, 0x03, 0x4d, 0x0c,
    0x8b, 0x41, 0xe0, 0x0d, 0x30, 0x31, 0x08, 0xb9, 0xa6, 0x91, 0xb3, 0xf1, 0xd7, 0x2b, 0x02, 0xa4,
    0x0d, 0x94, 0xbe, 0x2b, 0x8e, 0x01, 0x8c, 0xe1, 0x3d, 0xe0, 0x76, 0x76, 0x1a, 0xba, 0x1b, 0x13,
    0x8d, 0xc7, 0x2e, 0x04, 0x6b, 0xbf, 0x06, 0xe7, 0x74, 0x28, 0x47, 0xce, 0x60, 0xb4, 0x4b, 0x61,
    0x89, 0xe5, 0x6c, 0xe3, 0x13, 0x55, 0x78, 0xcb, 0x32, 0xa8, 0x6f, 0x65, 0xd7, 0x3d, 0x19, 0xfa,
    0x9a, 0xff, 0x8f, 0x61, 0x9e, 0xa3, 0x40, 0x75, 0xbe, 0x0e, 0xaf, 0x4f, 0x95, 0x4c, 0xef, 0x77,
    0x1b, 0x1f, 0x35, 0xe1, 0x98, 0x20, 0x43, 0xe2, 0x2d, 0x7a, 0x15, 0xe7, 0x39, 0x64, 0xde, 0x07,
    0x93, 0x8f, 0xcb, 0x5e, 0x93, 0x00, 0x22, 0xe8, 0x00, 0xd6, 0x0c, 0x3b, 0xf7, 0x2b, 0x0d, 0x84,
    0xdd, 0xba, 0xbd, 0x56, 0x3b, 0x77, 0x51, 0x51, 0xbc, 0x0a, 0xf6, 0x2a, 0xbc, 0x82, 0xcd, 0x53,
    0x5d, 0x07, 0xd4, 0x49, 0x92, 0xf2, 0x8e, 0xef, 0x9c, 0x0b, 0x6a, 0x42, 0xde, 0xe5, 0x6f, 0xa6,
    0xdf, 0xff, 0x37, 0xc3, 0x12, 0xac, 0x18, 0x40, 0x87, 0xea, 0x26, 0x88, 0x76, 0x9f, 0xc1, 0x13,
    0xda, 0xb8, 0x90, 0xd4, 0xed, 0x71, 0x85, 0x0c, 0x93, 0x8c, 0x8c, 0x7b, 0xa3, 0x81, 0x1e, 0xb6,
    0xd8, 0x7b, 0xde, 0x5b, 0x48, 0xce, 0x36, 0x30, 0x56, 0x4a, 0xf2, 0x04, 0xf4, 0x60, 0x26, 0xd9,
    0x8f, 0xca, 0xbf, 0xb5, 0x13, 0xdd, 0xbf, 0xe9, 0xe9, 0x25, 0xee, 0x85, 0x11, 0x21, 0x62, 0xf0,
    0x48, 0x92, 0xe6, 0x0a, 0x14, 0x0d, 0xd6, 0x98, 0xe1, 0x76, 0xc3, 0x7c, 0xb1, 0x5d, 0xdc, 0x05,
    0x27, 0x80, 0x33, 0xa1, 0x39, 0x8a, 0x2a, 0x05, 0xad, 0xbf, 0xd2, 0x36, 0x6c, 0x7c, 0xfd, 0x04,
    0x8a, 0x02, 0x55, 0xbd, 0x15, 0x8c, 0x5a, 0x32, 0x1b, 0xc4, 0x28, 0x6d, 0x2d, 0x07, 0x9c, 0xa4,
    0xee, 0x63, 0x30, 0xd3, 0xc5, 0x89, 0xc7, 0xd1, 0x4c, 0x25, 0xd6, 0x8d, 0xb9, 0x3e, 0x2a, 0x00,
    0x6a, 0x38, 0xe6, 0xd3, 0xb9, 0xb1, 0x3f, 0xa0, 0xf6, 0xe4, 0x10, 0x94, 0x32, 0x45, 0xfc, 0x1b,
    0xf9, 0xa5, 0x31, 0xa4, 0xd4, 0x72, 0x9f, 0x0b, 0x3a, 0x16, 0xa9, 0xe9, 0xdd, 0xad, 0xc7, 0xc3,
    0xfe, 0x18, 0xdb, 0x7b, 0x0b, 0xf5, 0xcc, 0xe5, 0x7d, 0xeb, 0xe3, 0xfc, 0x63, 0x64, 0xae, 0xf2,
    0xe5, 0xfb, 0xab, 0x00, 0x8f, 0x0d, 0x63, 0xd7, 0x65, 0xf2, 0x71, 0x1f, 0xd5, 0xda, 0x3f, 0xc9,
    0xbb, 0x27, 0x88, 0x24, 0x0a, 0x4f, 0x24, 0x91, 0x89, 0x76, 0xd7, 0xed, 0x00, 0xc3, 0x28, 0x02,
    0x00, 0x53, 0x19, 0x02, 0xf9, 0x40, 0xef, 0x23, 0xa6, 0x6a, 0xeb, 0xe1, 0x6c, 0x37, 0x6f, 0x24,
    0x0f, 0x87, 0x8f, 0x01, 0x2a, 0x64, 0xf4, 0xb4, 0xad, 0x08, 0x6f, 0x0b, 0x0d, 0xfe, 0x48, 0xc5,
    0xde, 0x47, 0xeb, 0xfd, 0x94, 0x60, 0xbf, 0x07, 0x8a, 0x46, 0x22, 0x2a, 0x40, 0x8f, 0x61, 0x84,
    0x2b, 0x8b, 0xa4, 0xfd, 0xaa, 0x11, 0x5d, 0x11, 0xe0, 0xd9, 0x3a, 0x15, 0x00, 0x70, 0xef, 0x0f,
    0x25, 0x1c, 0xd3, 0xc5, 0x6d, 0x73, 0xe6, 0x03, 0xd6, 0x68, 0x2b, 0x2b, 0xae, 0x5a, 0x17, 0x2a,
    0xfa, 0x1c, 0x80, 0xab, 0x45, 0xf2, 0x02, 0x58, 0x6e, 0x84, 0x78, 0x2d, 0x9e, 0xd3, 0x89, 0x5a,
    0x37, 0x5f, 0xa1, 0x06, 0x1a, 0x4d, 0x65, 0xd0, 0x11, 0x8d, 0x40, 0x9f, 0x78, 0xf7, 0xb3, 0x96,
    0x1a, 0xcc, 0xb5, 0xf8, 0x1d, 0x38, 0xba, 0x95, 0xf2, 0xd9, 0xd0, 0x99, 0xe2, 0x1a, 0xa8, 0x18,
    0x70, 0x1f, 0x08, 0x65, 0x20, 0x6a, 0x69, 0xd9, 0xff, 0xb3, 0xf9, 0xb0, 0x2d, 0x6d, 0x0b, 0x8b,
    0x42, 0x62, 0x43, 0xe4, 0xd2, 0x48, 0xfd, 0x0d, 0x52, 0xa4, 0x12, 0x6c, 0x38, 0x55, 0x56, 0xac,
    0x04, 0x52, 0x26, 0x03, 0x16, 0x34, 0xb8, 0x4e, 0x40, 0x5a, 0x6e, 0x17, 0xf7, 0xf1, 0xe9, 0x13,
    0xd7, 0x3d, 0xdc, 0x4a, 0x5f, 0x89, 0x96, 0xda, 0x93, 0x6c, 0xd8, 0xbe, 0x66, 0x79, 0x11, 0x1e,
    0xc1, 0xaa, 0xbe, 0x5b, 0xba, 0xd9, 0x78, 0x3b, 0x16, 0x22, 0x88, 0xed, 0x04, 0x5d, 0x0b, 0x01,
    0x15, 0x6f, 0xd6, 0x58, 0xc5, 0x89, 0x96, 0xd8, 0x5e, 0x7c, 0x18, 0x15, 0xfe, 0x44, 0x9c, 0xfc,
    0x04, 0xff, 0xf6, 0xd2, 0xfd, 0xf7, 0xbf, 0x03, 0xda, 0x10, 0x26, 0xf5, 0xaf, 0xc8, 0xe5, 0x9e,
    0x9e, 0xa8, 0xe5, 0xb0, 0xcc, 0x38, 0xf8, 0xe0, 0xa3, 0x61, 0xf5, 0x2a, 0xe2, 0x06, 0x7d, 0x12,
];

/// Rows 64 to 95 of the generating matrix.
pub const PRECOMPUTED_ROWS_2: [u8; PRECOMPUTED_PART_SIZE] = [
    0xff, 0x5b, 0x59, 0xa4, 0x4f, 0x39, 0x1e, 0x14, 0xcf, 0x20, 0xb7, 0x4b, 0xdc, 0x32, 0xfc, 0xff,
    0x4a, 0x0c, 0xe3, 0xe1, 0xe9, 0x53, 0xdf, 0xc4, 0x9b, 0x8d, 0xc0, 0x05, 0x54, 0x8e, 0xeb, 0x96,
    0x56, 0xb6, 0xb3, 0x59, 0xfd, 0x0a, 0xa5, 0x13, 0xaa, 0x0a, 0xd3, 0x82, 0x2c, 0x9b, 0x4b, 0xbe,
    0x2e, 0xc7, 0xf3, 0x21, 0x6e, 0x8d, 0x97, 0x4c, 0x7b, 0xdc, 0x19, 0x88, 0x78, 0xcd, 0x44, 0x1f,
    0x51, 0xa5, 0x77, 0x1d, 0xc9, 0x9d, 0x45, 0x3c, 0x40, 0x59, 0x65, 0xaa, 0x3c, 0x9e, 0x67, 0x5a,
    0x8b, 0xda, 0x5d, 0xa1, 0xe7, 0x0e, 0xb5, 0xac, 0xdb, 0x79, 0xec, 0xe3, 0xc6, 0x76, 0x9d, 0xa9,
    0x7b, 0x14, 0x8b, 0x82, 0x98, 0x67, 0x8d, 0xa8, 0x8a, 0xe7, 0xdd, 0x5e, 0xda, 0xb8, 0x54, 0x6f,
    0xb8, 0x88, 0x1e, 0x22, 0xbf, 0xd7, 0x38, 0xe2, 0x27, 0xea, 0x6a, 0x24, 0x36, 0x92, 0xbf, 0x02,
    0xf7, 0x2d, 0x69, 0x12, 0x72, 0xa9, 0x34, 0x7d, 0x75, 0x1b, 0x67, 0x69, 0x81, 0x39, 0xb6, 0x1f,
    0x7c, 0x6b, 0xc5, 0x70, 0x3a, 0xd8, 0xbd, 0x10, 0xa2, 0x54, 0x97, 0x39, 0xc9, 0x33, 0x15, 0x8f,
    0x95, 0x7d, 0xee, 0xc2, 0xec, 0xbd, 0x24, 0x5b, 0xce, 0x0d, 0x82, 0xbb, 0xee, 0x17, 0x81, 0xa0,
    0xb0, 0x80, 0xf4, 0x33, 0x0d, 0x48, 0xfc, 0x07, 0xec, 0x35, 0x5f, 0xbe, 0x89, 0xde, 0x04, 0x0e,
    0x3c, 0xe9, 0xb6, 0xfe, 0x43, 0x8b, 0x50, 0xf7, 0xa6, 0x4d, 0x8e, 0x21, 0x63, 0x68, 0x68, 0x02,
    0xba, 0xe3, 0x82, 0xeb, 0x48, 0xac, 0x08, 0xdb, 0x00, 0xd8, 0x84, 0x12, 0x3e, 0xae, 0x5e, 0xd0,
    0x88, 0x36, 0xe1, 0xe1, 0x9b, 0x6b, 0xe2, 0xa8, 0xe2, 0x58, 0xf1, 0xb4, 0xa5, 0x47, 0x0a, 0x75,
    0x03, 0xc4, 0x0a, 0xb1, 0x92, 0xe1, 0xe6, 0x6d, 0x20, 0xac, 0x52, 0x6d, 0x45, 0xe0, 0x35, 0x04,
    0xff, 0x6f, 0x74, 0x08, 0x97, 0x14, 0x9c, 0x4e, 0xbf, 0x69, 0x3f, 0x0e, 0xae, 0x3f, 0x7a, 0xfb,
    0x1e, 0xf8, 0x25, 0x1c, 0x7c, 0x99, 0x38, 0x2d, 0xc1, 0x50, 0x11, 0x94, 0x12, 0x44, 0xdd, 0x09,
    0xdf, 0x66, 0x49, 0xaf, 0xe0, 0xcc, 0xc0, 0x5b, 0x73, 0x7e, 0x8b, 0x1a, 0x2b, 0x1c, 0x41, 0xf5,
    0xfa, 0xe9, 0x8b, 0x0e, 0x2b, 0x90, 0x53, 0xe4, 0x56, 0x22, 0x21, 0xe0, 0x9b, 0x15, 0x14, 0x0d,
    0xb4, 0x16, 0x2d, 0xdf, 0x25, 0xb2, 0x6e, 0x31, 0x54, 0x57, 0x5c, 0x56, 0x32, 0x06, 0x2f, 0xfd,
    0xf9, 0xff, 0x0f, 0xd2, 0x9c, 0xc1, 0xe5, 0x3e, 0xe4, 0xcd, 0xe5, 0x0c, 0x86, 0xf2, 0x4d, 0x9f,
    0xf4, 0xe7, 0xcd, 0x6e, 0x3d, 0x89, 0x8d, 0xa1, 0x68, 0x69, 0x40, 0x33, 0xff, 0x7a, 0x3d, 0xa7,
    0x64, 0x0d, 0x66, 0xb4, 0x49, 0xd5, 0xf4, 0x08, 0xc8, 0x91, 0x9b, 0xec, 0x84, 0xd5, 0xa8, 0x1b,
    0xa2, 0x65, 0x37, 0x9f, 0x1c, 0xb6, 0xa1, 0xc2, 0x88, 0x84, 0x46, 0x19, 0x72, 0x88, 0x5e, 0x64,
    0x11, 0xdb, 0x7c, 0xa4, 0x0a, 0xf2, 0x8a, 0xb0, 0x14, 0x35, 0xde, 0x83, 0xb2, 0x87, 0x6c, 0xab,
    0xa6, 0xbd, 0xf6, 0xc6, 0xd9, 0xc6, 0x7c, 0x00, 0x6c, 0x79, 0xdf, 0xb7, 0x2f, 0x76, 0x8c, 0x12,
    0x7b, 0xd8, 0x71, 0x3d, 0x67, 0x6b, 0xb8, 0xf5, 0x96, 0x24, 0x87, 0xd4, 0x49, 0x60, 0x15, 0x09,
    0x71, 0xbe, 0x54, 0x11, 0x5e, 0xf3, 0x08, 0x79, 0xc6, 0xb2, 0x7e, 0x9f, 0x58, 0xb7, 0x94, 0x7c,
    0xc2, 0x77, 0xbd, 0xa1, 0xb7, 0xa8, 0x3c, 0xd9, 0x31, 0xad, 0xe5, 0x05, 0xf6, 0x90, 0x9f, 0x6c,
    0x0c, 0xcd, 0xcf, 0xb3, 0xfe, 0x34, 0xfd, 0x27, 0x04, 0x36, 0x2b, 0xf4, 0x61, 0x75, 0x73, 0xed,
    0x0d, 0x47, 0x13, 0x1f, 0x2f, 0xde, 0xea, 0xf7, 0x7f, 0xea, 0xd7, 0x14, 0xd0, 0x1f, 0xcf, 0x13,
    0x95, 0x1f, 0x44, 0x54, 0x32, 0xd8, 0x29, 0xb6, 0x22, 0x23, 0x61, 0x73, 0xcd, 0xd7, 0xfe, 0xf3,
    0x33, 0x9f, 0xa0, 0x24, 0x26, 0xd3, 0x7c, 0x8f, 0x53, 0xa5, 0xb1, 0x7a, 0x95, 0xfc, 0x91, 0xac,
    0xbb, 0x69, 0x3d, 0xb2, 0x59, 0xdd, 0xca, 0x8c, 0x04, 0x0a, 0x3f, 0x19, 0xf1, 0xe6, 0x6b, 0x74,
    0xbc, 0xac, 0xde, 0x77, 0xd3, 0x6a, 0xb8, 0x97, 0x42, 0xe9, 0x0a, 0x34, 0x20, 0x9c, 0xd9, 0x04,
    0xb2, 0xf2, 0xf9, 0xe8, 0xca, 0xd1, 0x8b, 0x27, 0xdb, 0xf7, 0x80, 0xf2, 0xb9, 0x83, 0xf3, 0x5f,
    0xde, 0xb2, 0xe4, 0xa6, 0x92, 0x90, 0x26, 0x67, 0x2c, 0xbb, 0xb0, 0x37, 0xb8, 0x60, 0x7a, 0x6c,
    0x8a, 0xd8, 0x32, 0x52, 0xd9, 0xe3, 0x33, 0xe6, 0x71, 0x88, 0x5e, 0xaf, 0xe3, 0x3e, 0x4b, 0x40,
    0x41, 0x02, 0xb2, 0xb4, 0x48, 0xfb, 0x8b, 0xe8, 0x36, 0x47, 0x04, 0xda, 0x23, 0x1e, 0x18, 0x03,
    0xf9, 0x86, 0x48, 0xba, 0x43, 0x81, 0xf4, 0x22, 0xf1, 0x18, 0x11, 0x0d, 0x7f, 0x1a, 0x46, 0x69,
    0x6a, 0xc7, 0x33, 0x20, 0x35, 0x3e, 0xdd, 0xf3, 0x86, 0x75, 0x16, 0x1e, 0x99, 0x88, 0x8b, 0x8d,
    0x07, 0xc2, 0x23, 0x8b, 0x0b, 0x7a, 0xcd, 0x4b, 0xd6, 0x89, 0x10, 0xca, 0x5c, 0xc3, 0x09, 0x51,
    0x5a, 0x9a, 0x83, 0xa1, 0xd5, 0xf0, 0x13, 0xfb, 0x6d, 0x98, 0x21, 0x9b, 0x99, 0xf8, 0x6d, 0x1b,
    0x58, 0x17, 0xff, 0x48, 0x14, 0x6b, 0x29, 0x4c, 0x55, 0xa9, 0xbe, 0x1c, 0x15, 0x75, 0xca, 0xc0,
    0xc1, 0xee, 0x6b, 0xdd, 0xd0, 0x13, 0x52, 0x75, 0xaf, 0xfa, 0x3f, 0xd4, 0x0a, 0x3c, 0xc8, 0x6a,
    0xda, 0x83, 0x47, 0x87, 0x23, 0x00, 0xab, 0x7b, 0x8c, 0xf6, 0xf9, 0xdb, 0x7e, 0x09, 0x58, 0x57,
    0x10, 0x8c, 0x27, 0x1a, 0x95, 0x07, 0x7d, 0xd5, 0x19, 0x5d, 0x53, 0xdb, 0x64, 0x16, 0xec, 0x1e,
    0xcc, 0xfc, 0xfd, 0x54, 0xd2, 0x45, 0x83, 0xb4, 0x11, 0xf5, 0x2a, 0x5a, 0x4c, 0xd0, 0xd9, 0x8b,
    0xa6, 0x50, 0xc2, 0x32, 0xef, 0x8a, 0xc4, 0x53, 0xa0, 0x34, 0xd1, 0x87, 0x19, 0xbc, 0x9b, 0xb7,
    0xe0, 0xb7, 0xd7, 0x5e, 0xb0, 0xf9, 0x53, 0x2d, 0xdc, 0x65, 0x1e, 0xb4, 0xbd, 0xfc, 0x21, 0x5a,
    0x78, 0x01, 0xa5, 0x13, 0x3c, 0xca, 0x57, 0x23, 0x9f, 0xbe, 0x51, 0x1a, 0xea, 0xe6, 0x9a, 0x02,
    0x50, 0x45, 0x44, 0x51, 0x65, 0x72, 0x94, 0x83, 0x44, 0x07, 0xdc, 0x84, 0xbf, 0x48, 0xb6, 0x10,
    0x21, 0xff, 0xe2, 0x65, 0xf9, 0x3c, 0x0f, 0x6f, 0xa1, 0x83, 0xf5, 0x81, 0x8c, 0x7d, 0x89, 0x5a,
    0x1b, 0x1a, 0x45, 0x1f, 0x88, 0x2f, 0xb2, 0x16, 0x1c, 0xc6, 0x49, 0x93, 0xf6, 0xd2, 0x52, 0xea,
    0x32, 0x62, 0x86, 0x9e, 0x7a, 0x16, 0xcd, 0xd1, 0xdc, 0x12, 0x8a, 0x86, 0xdc, 0x18, 0x44, 0x1f,
    0x7a, 0x76, 0x43, 0x34, 0xe9, 0xc9, 0xbd, 0x0e, 0xb9, 0x28, 0xfb, 0x35, 0x26, 0x38, 0x43, 0xde,
    0x7e, 0x82, 0x96, 0x13, 0xd3, 0x38, 0xa2, 0xc0, 0x41, 0x8c, 0x90, 0x84, 0x1e, 0xa1, 0xf1, 0x4e,
    0x06, 0x29, 0x47, 0xa1, 0x31, 0x78, 0x72, 0x7c, 0xb0, 0x0d, 0x72, 0x40, 0x16, 0xe6, 0xa2, 0x4d,
    0x48, 0x39, 0x49, 0x26, 0xad, 0x91, 0x76, 0x0f, 0x73, 0x55, 0xc6, 0x9f, 0x50, 0x2c, 0x1c, 0x0b,
    0x17, 0x43, 0x39, 0xaf, 0xc4, 0x2e, 0xa7, 0x35, 0x82, 0xb7, 0x4d, 0x93, 0x09, 0xb7, 0x22, 0x78,
    0x1b, 0x48, 0x5f, 0x53, 0xd5, 0x9b, 0x29, 0x3b, 0x1c, 0x7d, 0x44, 0x7c, 0x15, 0x3b, 0xcf, 0x25,
    0xa9, 0x57, 0xb4, 0xfc, 0x63, 0x0c, 0x36, 0x90, 0xb3, 0xbc, 0xfa, 0xfd, 0xeb, 0xdf, 0x51, 0xe3,
    0xca, 0x9e, 0x51, 0x80, 0x6a, 0xf6, 0x38, 0x94, 0x37, 0x1b, 0x2b, 0xc6, 0x2e, 0xf8, 0xdb, 0x10,
    0x62, 0x2a, 0xb4, 0xed, 0xe9, 0xee, 0x60, 0xbc, 0x59, 0x29, 0x49, 0x8e, 0xdc, 0x70, 0x32, 0x18,
    0x2e, 0x5e, 0x43, 0x6e, 0x66, 0xc6, 0x72, 0x41, 0xb9, 0x98, 0xe9, 0x0e, 0x49, 0xf4, 0x7c, 0x86,
    0xe3, 0x15, 0x31, 0x4a, 0xce, 0xbb, 0x2c, 0x42, 0x7f, 0xe7, 0x1c, 0x23, 0xff, 0xfa, 0xc4, 0x8d,
    0xa1, 0x39, 0x29, 0xb7, 0xd9, 0x1c, 0x18, 0xb8, 0x8a, 0xc2, 0x61, 0xb0, 0x28, 0x4f, 0x36, 0x16,
    0x4e, 0x39, 0xca, 0xf8, 0x25, 0x88, 0x75, 0x79, 0x3c, 0x9b, 0x5f, 0x94, 0x34, 0xa2, 0xd7, 0xa0,
    0xd5, 0x68, 0x62, 0xa2, 0x37, 0x5f, 0x7c, 0x09, 0x30, 0x80, 0xa0, 0xcb, 0x81, 0x43, 0x06, 0x33,
    0x74, 0x89, 0x15, 0x1c, 0x3f, 0xd5, 0x2d, 0xa7, 0x04, 0xa5, 0x9f, 0xdd, 0x9b, 0x78, 0xee, 0x61,
    0x1a, 0x4f, 0xbd, 0x05, 0xc6, 0x6d, 0xa0, 0x0a, 0xe4, 0xf7, 0xbb, 0x3b, 0xd8, 0x42, 0xb7, 0x18,
    0x96, 0xf3, 0x07, 0x84, 0x8b, 0x83, 0x96, 0xd2, 0xa4, 0x3e, 0x84, 0x8c, 0xba, 0xc0, 0x03, 0xed,
    0xa6, 0x48, 0xce, 0x0b, 0x53, 0x71, 0x72, 0xbc, 0xbf, 0x04, 0xe5, 0xb2, 0x04, 0x57, 0x7a, 0x50,
    0xae, 0xde, 0x9c, 0x64, 0x98, 0x44, 0x77, 0xf0, 0x45, 0xb9, 0x68, 0xf9, 0x91, 0xb2, 0x6b, 0xfc,
    0xe4, 0x4a, 0x1e, 0x2d, 0x7b, 0xf4, 0x27, 0xa5, 0x7e, 0x3a, 0xc2, 0xd1, 0xd8, 0x2f, 0x5d, 0x0e,
    0x34, 0x63, 0x1a, 0x9a, 0x2a, 0xe5, 0x97, 0x35, 0xfb, 0xab, 0x2d, 0xd9, 0x7d, 0x4b, 0x39, 0xdd,
    0x8d, 0xe1, 0x73, 0x42, 0x21, 0x1f, 0x68, 0x5e, 0xb9, 0xb0, 0x2f, 0xc8, 0x13, 0x75, 0x82, 0x1c,
    0x65, 0x66, 0x19, 0x35, 0x94, 0x58, 0x11, 0x0c, 0x4f, 0x71, 0x04, 0xb1, 0x85, 0x66, 0xe9, 0x5e,
    0xcb, 0xb4, 0x90, 0x2a, 0x10, 0xbf, 0xe0, 0x19, 0xc9, 0x89, 0xf3, 0xae, 0x61, 0x0e, 0xf6, 0x1b,
    0x40, 0x32, 0x16, 0xb4, 0x4b, 0x26, 0xc8, 0xc9, 0x90, 0x72, 0x1b, 0x3b, 0x0f, 0xb0, 0x84, 0x56,
    0xd7, 0x5e, 0x11, 0x09, 0xc1, 0xfe, 0xb1, 0x90, 0xc8, 0x1d, 0x4e, 0xe8, 0xfd, 0x0f, 0x58, 0x6d,
    0x6d, 0x97, 0x52, 0x40, 0xab, 0xf7, 0x61, 0x28, 0x4c, 0xba, 0xee, 0xbd, 0x6f, 0x40, 0x16, 0x8c,
    0x9a, 0xcb, 0xb2, 0x69, 0x44, 0xd5, 0xf5, 0x19, 0x3e, 0x05, 0x95, 0x0e, 0xed, 0x77, 0xfd, 0x02,
    0x2a, 0xda, 0x05, 0x70, 0x23, 0x1a, 0x25, 0xac, 0x5e, 0xce, 0x9b, 0xe5, 0xa7, 0xdf, 0x6c, 0xf4,
    0x62, 0x41, 0x9d, 0x2b, 0xe0, 0x3b, 0x6a, 0xa4, 0x7d, 0x67, 0xfd, 0xf9, 0xbc, 0x83, 0xe7, 0x3f,
    0xfc, 0x45, 0xb8, 0xc0, 0x9a, 0x3a, 0x6e, 0x0c, 0x72, 0xd8, 0xf3, 0x08, 0xc2, 0xbd, 0x75, 0xb4,
    0x4a, 0xef, 0x57, 0x46, 0x1b, 0x98, 0x43, 0x54, 0x3d, 0x21, 0x50, 0x52, 0x86, 0x3c, 0x60, 0x00,
    0xab, 0xbe, 0x35, 0x66, 0x28, 0x47, 0x9f, 0x63, 0x2f, 0xf7, 0xed, 0x70, 0x5e, 0x16, 0x15, 0x1c,
    0x5c, 0x3b, 0xa3, 0xc4, 0x70, 0x78, 0x8b, 0xb8, 0xfb, 0x1a, 0x88, 0x91, 0x83, 0x2d, 0xf4, 0xeb,
    0x46, 0xd1, 0x0f, 0x01, 0xdc, 0x54, 0xd9, 0x3f, 0x01, 0x6b, 0x0d, 0x11, 0x20, 0x66, 0x41, 0x64,
    0x3b, 0xcb, 0x39, 0xd0, 0x39, 0x25, 0x44, 0x9d, 0x93, 0x27, 0x75, 0x0e, 0x2b, 0x58, 0x7b, 0x1f,
    0x8c, 0x43, 0x18, 0xdf, 0x43, 0x34, 0xbc, 0x36, 0xab, 0x71, 0x3e, 0x0a, 0x5e, 0x1d, 0x61, 0xd1,
    0xe7, 0x8f, 0xf9, 0xe9, 0xa9, 0x32, 0x67, 0x98, 0x79, 0xed, 0x0f, 0x91, 0x09, 0x09, 0xf3, 0x9d,
    0x56, 0x66, 0x9f, 0x1a, 0x77, 0x69, 0x12, 0x03, 0x75, 0xf5, 0x79, 0x66, 0x22, 0x8e, 0xdf, 0xf6,
    0xb8, 0xa4, 0x2a, 0x0c, 0x90, 0x60, 0x52, 0x9f, 0xff, 0xa1, 0xde, 0x70, 0x92, 0xb7, 0xfa, 0x16,
    0x4c, 0xc0, 0xfe, 0x23, 0x62, 0x75, 0x16, 0x72, 0xe1, 0xda, 0xc9, 0xf6, 0x0b, 0xc7, 0x52, 0x2f,
    0xc8, 0x7d, 0x68, 0xbe, 0xfe, 0x3c, 0xa2, 0xd3, 0xb6, 0x86, 0x53, 0xf0, 0x19, 0xb1, 0x08, 0xd9,
    0x9c, 0x78, 0x64, 0xa9, 0x62, 0x5b, 0x7a, 0x29, 0x71, 0xef, 0xde, 0x14, 0x18, 0xf3, 0x82, 0x43,
    0x53, 0x4f, 0x42, 0xd5, 0xb0, 0xe4, 0x4d, 0x08, 0x3d, 0x8b, 0x03, 0xe6, 0xbf, 0x24, 0xe1, 0x1e,
    0x9a, 0xb2, 0x3b, 0xd8, 0x58, 0xdf, 0xef, 0xd3, 0xfb, 0x8a, 0x3e, 0xfd, 0x8e, 0x50, 0x64, 0xf0,
    0x43, 0x85, 0xb5, 0xec, 0x2c, 0x33, 0x21, 0xd5, 0x4e, 0x60, 0x18, 0x71, 0x8e, 0xa8, 0x6c, 0x35,
    0xe3, 0x61, 0x6c, 0x6d, 0x82, 0xa1, 0xe0, 0xed, 0xfe, 0xb8, 0xb9, 0x38, 0xa2, 0x9c, 0xcb, 0x2d,
    0xc5, 0xda, 0x3f, 0xa6, 0x94, 0x0c, 0xc7, 0x01, 0x06, 0xc7, 0x34, 0x87, 0xbd, 0x91, 0x6d, 0x13,
    0x72, 0xed, 0xa9, 0xbc, 0xc3, 0x4f, 0x29, 0x98, 0x1e, 0xb8, 0xd1, 0x6f, 0x75, 0x64, 0x33, 0x08,
    0xb7, 0x77, 0x79, 0x1f, 0x09, 0x7f, 0x5c, 0xf3, 0xb0, 0x94, 0x87, 0x00, 0xfd, 0x0b, 0xb1, 0x9b,
    0x3a, 0xa4, 0x1a, 0x52, 0xe7, 0xb6, 0x6f, 0x90, 0x3f, 0xc0, 0x9d, 0xf7, 0xa1, 0xef, 0x4e, 0x32,
    0x5a, 0x09, 0xbd, 0x8a, 0x3b, 0x77, 0x1b, 0x4f, 0x59, 0x1c, 0xa3, 0x5d, 0x1e, 0x3c, 0xb0, 0x07,
    0xb6, 0x28, 0x5a, 0xdf, 0x81, 0x84, 0x8a, 0x1e, 0x82, 0xf0, 0x94, 0x2c, 0xf2, 0x00, 0x98, 0xfd,
    0xd4, 0xe4, 0x77, 0x2a, 0x96, 0xdb, 0x63, 0x73, 0x6e, 0xbb, 0x45, 0x14, 0xbd, 0xb6, 0xc9, 0x42,
    0x41, 0x31, 0xc4, 0x98, 0x5a, 0x6e, 0xd1, 0x79, 0x0e, 0x89, 0x2f, 0x0f, 0xf1, 0x40, 0x12, 0xbe,
    0x18, 0x42, 0xf6, 0x2c, 0x78, 0x81, 0xdf, 0xc9, 0x12, 0xda, 0xce, 0x0d, 0x98, 0x54, 0xeb, 0x18,
    0xfa, 0x0e, 0x49, 0xe2, 0x50, 0x6b, 0x67, 0xb9, 0x4d, 0x17, 0x13, 0x6c, 0xca, 0x02, 0x67, 0xcc,
    0x75, 0xbe, 0xa8, 0x31, 0x0d, 0x4d, 0xd1, 0x3c, 0xcd, 0x74, 0x4d, 0x33, 0x61, 0xce, 0x64, 0x2f,
    0xa3, 0x14, 0xb5, 0x70, 0xfa, 0x53, 0x03, 0xbd, 0x91, 0xb1, 0x3e, 0xd3, 0x07, 0x50, 0xd2, 0x4f,
    0x72, 0xc3, 0x98, 0x77, 0xa9, 0xb6, 0xee, 0x5e, 0x6f, 0x6a, 0x18, 0xd9, 0xee, 0xab, 0x81, 0x00,
    0xc2, 0x3f, 0x37, 0xa1, 0xa8, 0x63, 0x92, 0x0d, 0x8a, 0xaf, 0x2f, 0xb4, 0x09, 0xf5, 0xf2, 0x8a,
    0x64, 0x39, 0xac, 0x81, 0x48, 0x5b, 0x02, 0x0e, 0x41, 0x6a, 0x12, 0xdb, 0xd6, 0xcf, 0x97, 0xba,
    0x44, 0xd9, 0x97, 0xcc, 0xe0, 0xf8, 0x86, 0x2f, 0x09, 0xec, 0x3b, 0xb8, 0x23, 0xf1, 0x4f, 0x6d,
    0x66, 0xdc, 0xc5, 0x06, 0x1b, 0x99, 0x29, 0xb9, 0x80, 0x2d, 0x57, 0x47, 0xe1, 0x9b, 0x6a, 0x12,
    0x92, 0xc1, 0xec, 0xc6, 0x03, 0x22, 0xfc, 0x96, 0x4f, 0xd5, 0x4d, 0x9f, 0x6a, 0x84, 0x3b, 0xf2,
    0xe9, 0x6b, 0x26, 0xc3, 0xc4, 0x22, 0x80, 0x4f, 0xc7, 0x36, 0x5f, 0x76, 0xbd, 0x24, 0xe2, 0x12,
    0x73, 0xeb, 0x9d, 0x44, 0x1d, 0x52, 0xa4, 0x2f, 0x24, 0xcc, 0x55, 0x53, 0xdc, 0x98, 0xaf, 0xce,
    0xe3, 0x42, 0x86, 0x81, 0x6f, 0xf5, 0x71, 0x28, 0x6a, 0x21, 0xd3, 0xab, 0xbd, 0x14, 0x56, 0x16,
    0x96, 0xb3, 0x84, 0xb4, 0xd3, 0xcd, 0x2b, 0xbd, 0x63, 0xc6, 0x02, 0xf4, 0xcf, 0xaa, 0x95, 0x53,
    0x80, 0xa8, 0x1d, 0x3d, 0xe7, 0x1d, 0x5d, 0x02, 0x7e, 0xbe, 0x09, 0xc7, 0x3a, 0x6e, 0xed, 0xdc,
    0x22, 0xf4, 0xa6, 0x56, 0x14, 0xbc, 0x64, 0x3a, 0x87, 0x41, 0x56, 0xc2, 0xe0, 0xd2, 0x73, 0xd3,
    0x26, 0xed, 0x90, 0x97, 0x34, 0xdd, 0x63, 0xa0, 0x55, 0xe1, 0x50, 0x3e, 0xcf, 0x5d, 0x79, 0x15,
];

/// Rows 96 to 127 of the generating matrix.
pub const PRECOMPUTED_ROWS_3: [u8; PRECOMPUTED_PART_SIZE] = [
    0x2a, 0x93, 0x51, 0xcc, 0x9c, 0x8c, 0x3e, 0x76, 0xdc, 0x6e, 0x4d, 0x00, 0xa1, 0xac, 0xe6, 0xcb,
    0x14, 0x01, 0x25, 0x85, 0xe6, 0xd9, 0x1c, 0xa7, 0x76, 0xae, 0x19, 0xa7, 0xa8, 0x8a, 0xf2, 0xf9,
    0xe8, 0x70, 0xe4, 0xff, 0x83, 0x25, 0xc9, 0xa5, 0x78, 0x73, 0xbd, 0x40, 0x93, 0x51, 0xf2, 0x15,
    0x1b, 0xea, 0x9a, 0x4d, 0x1d, 0x69, 0x2c, 0x90, 0xec, 0xbe, 0xd0, 0xab, 0xed, 0x48, 0xdb, 0x11,
    0xff, 0x08, 0x73, 0x40, 0xc1, 0xb9, 0x71, 0xb6, 0x34, 0xa3, 0xb0, 0xf3, 0xe1, 0x81, 0x50, 0x88,
    0x00, 0x02, 0xe7, 0x72, 0x87, 0x49, 0x43, 0x07, 0x98, 0x97, 0x08, 0xbb, 0xbd, 0xf4, 0xb3, 0x89,
    0xfd, 0x72, 0xd8, 0xfb, 0x04, 0xe6, 0x5b, 0x6d, 0x1c, 0xb9, 0x4b, 0xa9, 0x07, 0xd4, 0xea, 0x7a,
    0xbb, 0xd4, 0x66, 0xed, 0x6c, 0x45, 0x0a, 0x62, 0xf8, 0x72, 0x6f, 0xa9, 0x47, 0x2b, 0xde, 0x0f,
    0x12, 0x44, 0x92, 0xc0, 0x67, 0x38, 0x7a, 0x56, 0x70, 0xc5, 0xaa, 0x29, 0x0f, 0xf9, 0xcc, 0x69,
    0xb7, 0x8f, 0xc8, 0x04, 0xae, 0xe1, 0xac, 0xeb, 0x10, 0x24, 0xcb, 0x08, 0xda, 0x36, 0xa7, 0x76,
    0x16, 0xff, 0xd1, 0x24, 0x46, 0x5a, 0x83, 0xa7, 0x18, 0xc7, 0xb5, 0xac, 0x2a, 0x53, 0xa5, 0x4c,
    0xe1, 0xc5, 0xa2, 0x9f, 0x78, 0xd1, 0x8b, 0xf4, 0xef, 0xe3, 0xe3, 0x74, 0x35, 0x77, 0x36, 0x19,
    0x5a, 0xe5, 0xae, 0xd7, 0x11, 0xe1, 0x23, 0x91, 0xb1, 0xfe, 0xb6, 0x44, 0xf2, 0xf1, 0x6b, 0x5b,
    0xe5, 0x20, 0x99, 0x51, 0x4b, 0x26, 0x7b, 0x14, 0x5b, 0xda, 0xb3, 0x29, 0x00, 0xca, 0x40, 0xf5,
    0xd7, 0xda, 0xcf, 0x2a, 0x3e, 0x4e, 0x19, 0x32, 0x58, 0xf2, 0x07, 0xdc, 0xa5, 0x95, 0x6b, 0xe9,
    0x1e, 0x3f, 0xcc, 0xf8, 0xac, 0xe9, 0x7c, 0x28, 0xef, 0xf6, 0xa8, 0xc3, 0x06, 0x28, 0xdb, 0x03,
    0xe6, 0x91, 0xf6, 0xe9, 0xa8, 0xba, 0xba, 0x6f, 0x30, 0xe5, 0x39, 0x1e, 0xd4, 0x7f, 0xc2, 0xb8,
    0x0b, 0x0c, 0x93, 0x15, 0xaa, 0x96, 0x2c, 0xb7, 0x04, 0xcc, 0x0c, 0x32, 0xc6, 0x9a, 0x0e, 0x61,
    0x44, 0xb8, 0x04, 0xc4, 0x41, 0xb0, 0x8f, 0xe2, 0xc0, 0x8e, 0x5f, 0xcc, 0xaa, 0x64, 0x16, 0x1b,
    0x9d, 0x92, 0xe7, 0xc6, 0x1b, 0x9d, 0xa0, 0x66, 0x8e, 0xad, 0x98, 0xf0, 0x6d, 0x49, 0xf2, 0x17,
    0x6b, 0x94, 0xb6, 0x39, 0x78, 0xb0, 0xef, 0x86, 0xde, 0xd8, 0x29, 0x56, 0xed, 0x89, 0x7d, 0xb9,
    0xa5, 0x34, 0xc2, 0x5e, 0x39, 0x26, 0xdc, 0x68, 0x44, 0x76, 0x5e, 0xb8, 0xfe, 0x3a, 0xad, 0x5a,
    0x17, 0x2f, 0xa3, 0x9b, 0x52, 0x12, 0x99, 0xa4, 0x33, 0x1e, 0x80, 0x73, 0xa7, 0xf5, 0xc2, 0x9f,
    0x44, 0xc4, 0xf7, 0xdf, 0x36, 0xe7, 0x49, 0x27, 0x42, 0x31, 0x3e, 0xf6, 0xf4, 0x7f, 0x4e, 0x06,
    0xfe, 0x20, 0x33, 0xd5, 0x71, 0xfc, 0xc5, 0xe7, 0x8f, 0xbb, 0x3c, 0x3e, 0xdd, 0x8f, 0x18, 0x05,
    0x1a, 0xef, 0xe0, 0x1e, 0xb3, 0x28, 0x4f, 0xdb, 0xc6, 0x24, 0x67, 0x76, 0xb0, 0xf2, 0x7e, 0xdc,
    0x4b, 0xbc, 0x02, 0x83, 0x4f, 0x41, 0x16, 0xaa, 0x30, 0xb5, 0xf9, 0x90, 0x2b, 0xc9, 0x20, 0x55,
    0x44, 0xf7, 0xe0, 0x32, 0x74, 0xc9, 0x28, 0x22, 0x5e, 0xe0, 0x1c, 0x16, 0xd1, 0xc0, 0xbc, 0x05,
    0xec, 0x13, 0x33, 0x3b, 0x65, 0xa7, 0xe1, 0x79, 0x75, 0x48, 0x35, 0xea, 0x4c, 0xe3, 0x35, 0x74,
    0x08, 0xa1, 0xd3, 0x38, 0x6c, 0xec, 0x83, 0x58, 0x85, 0x0d, 0x44, 0xf4, 0xaf, 0xac, 0x1f, 0x84,
    0x03, 0xb3, 0x92, 0x88, 0x13, 0xec, 0xb4, 0xb2, 0xb9, 0xc7, 0xbf, 0xb7, 0xd0, 0xbd, 0x8f, 0x3e,
    0x03, 0x8a, 0xe8, 0x9d, 0x69, 0x48, 0x8f, 0x97, 0xe6, 0x31, 0x6a, 0x27, 0x3f, 0x0f, 0x6b, 0x00,
    0x83, 0x6e, 0x0c, 0x7b, 0x1c, 0x0a, 0x06, 0x25, 0x2e, 0x9b, 0x58, 0xa1, 0xa4, 0xc4, 0x3b, 0x83,
    0xb9, 0x64, 0x4f, 0xa8, 0xb9, 0x0c, 0x9a, 0xc7, 0x1c, 0x43, 0xa4, 0xb1, 0x36, 0x8d, 0x62, 0xf2,
    0xe3, 0xc7, 0x9e, 0xc4, 0x1c, 0x49, 0xb8, 0x07, 0x7a, 0x0b, 0xca, 0xff, 0xf9, 0x06, 0xda, 0x51,
    0x50, 0xc8, 0x4a, 0x36, 0x56, 0xc6, 0xa6, 0xe8, 0x96, 0xc3, 0x17, 0x11, 0x78, 0x78, 0x70, 0x0b,
    0x7c, 0x77, 0xb7, 0x60, 0xa8, 0x0a, 0x09, 0x0b, 0xec, 0x03, 0xa2, 0xd9, 0x80, 0xb9, 0x7f, 0xa2,
    0x4d, 0x54, 0xc7, 0xbe, 0x89, 0xae, 0xa1, 0x51, 0x63, 0x82, 0xdf, 0x79, 0x27, 0x1d, 0x18, 0x10,
    0x50, 0xff, 0x27, 0x91, 0x55, 0x52, 0xe3, 0x35, 0x1f, 0xfa, 0x99, 0xa2, 0x18, 0x4a, 0xfd, 0x34,
    0xc9, 0x54, 0x6b, 0x83, 0xc9, 0x6a, 0xfd, 0x15, 0xd9, 0xfe, 0x8c, 0x81, 0xdf, 0x8a, 0x4c, 0x16,
    0x3b, 0x28, 0xaf, 0x30, 0xe7, 0xbe, 0x51, 0xf0, 0xeb, 0x6e, 0xe9, 0xcc, 0x0d, 0x5d, 0xc9, 0x1f,
    0x40, 0x6c, 0x63, 0x14, 0x6b, 0x5e, 0x51, 0x57, 0x9b, 0xb6, 0x77, 0x9b, 0x62, 0xa5, 0x11, 0xb9,
    0x7a, 0x0c, 0xb4, 0xf4, 0x3e, 0xea, 0xc3, 0x76, 0x7b, 0xdb, 0x7d, 0x60, 0xd4, 0x82, 0x11, 0x7a,
    0x23, 0x48, 0xcd, 0xe8, 0x9f, 0xdc, 0xfb, 0x73, 0x39, 0x0c, 0x39, 0x85, 0xea, 0x0f, 0x9b, 0x1a,
    0x1e, 0x04, 0x1b, 0xaf, 0xc4, 0x22, 0xe1, 0x5d, 0x5a, 0xa2, 0xad, 0xc2, 0xfb, 0x07, 0x1e, 0x70,
    0x2e, 0xb3, 0xfd, 0x18, 0x0a, 0x76, 0xa2, 0xf8, 0xc6, 0xa6, 0x69, 0xf7, 0x7b, 0xe5, 0xe2, 0xf3,
    0xa9, 0x65, 0xbd, 0xf9, 0x13, 0x97, 0x16, 0x51, 0xc3, 0x38, 0xda, 0x76, 0x45, 0x7d, 0x42, 0xf1,
    0x47, 0x62, 0x70, 0xbb, 0x49, 0x39, 0x02, 0xc5, 0x87, 0x15, 0x27, 0x44, 0x21, 0x0e, 0x78, 0x14,
    0x55, 0xb4, 0x9f, 0xec, 0xb0, 0x7a, 0xb5, 0x29, 0xa8, 0xfc, 0x9b, 0x59, 0x3b, 0x4b, 0xa0, 0x06,
    0x7a, 0x42, 0xf7, 0xfc, 0x92, 0xf0, 0x88, 0x5e, 0x1d, 0xb6, 0xa6, 0x27, 0xec, 0x5e, 0xb0, 0x77,
    0x30, 0x46, 0xa7, 0x39, 0xab, 0x53, 0x9e, 0x6d, 0x6c, 0xc4, 0x6f, 0x3f, 0x7d, 0x62, 0x57, 0x63,
    0x4f, 0x8b, 0x8e, 0xb9, 0x01, 0xe8, 0xa9, 0xe9, 0xb0, 0x35, 0x1d, 0x62, 0x7d, 0x21, 0x5c, 0x0a,
    0x67, 0xf3, 0x61, 0x85, 0x16, 0x68, 0x88, 0xb2, 0xfb, 0xbb, 0xb3, 0xd4, 0x2a, 0xb5, 0xac, 0x51,
    0x41, 0x2f, 0x1c, 0xa6, 0xf4, 0x57, 0x64, 0x5f, 0x9c, 0x4d, 0x21, 0x92, 0x1a, 0x16, 0xa8, 0xec,
    0xf5, 0x0c, 0x71, 0x4e, 0x9d, 0xe3, 0xbf, 0x83, 0x05, 0x74, 0x07, 0xdc, 0x02, 0x57, 0xe9, 0xaf,
    0xff, 0xce, 0x01, 0xc4, 0x60, 0xed, 0xa8, 0x88, 0xd6, 0x4b, 0x43, 0xb4, 0x97, 0xfc, 0x7a, 0x08,
    0xee, 0x15, 0xf0, 0x81, 0xc1, 0xce, 0x5f, 0xc0, 0xff, 0x7c, 0x8f, 0x17, 0x8b, 0x82, 0x69, 0x32,
    0x9e, 0x38, 0x8b, 0xa8, 0xd3, 0xf6, 0x16, 0xf0, 0x8f, 0xe9, 0x3a, 0x5b, 0x80, 0x5c, 0x09, 0x20,
    0x06, 0x89, 0x0c, 0xd7, 0x8a, 0xef, 0xe7, 0x94, 0x31, 0x72, 0x3b, 0xeb, 0xd8, 0x68, 0xb1, 0x6c,
    0x09, 0xe1, 0xaf, 0x26, 0xb2, 0x37, 0xaf, 0x00, 0x8e, 0xdf, 0xbf, 0x65, 0x06, 0xea, 0xc6, 0x1e,
    0x4c, 0x11, 0xec, 0x45, 0xfe, 0x9b, 0x54, 0x31, 0xd6, 0x21, 0xf6, 0xd3, 0xf0, 0x8e, 0x1f, 0x21,
    0x2a, 0x5b, 0x6e, 0x96, 0x65, 0xfc, 0x66, 0x3a, 0x8b, 0x57, 0x69, 0x4b, 0x33, 0xaf, 0xf0, 0xb4,
    0x7e, 0x77, 0x95, 0xa2, 0x87, 0xdb, 0x82, 0x08, 0xcb, 0x79, 0x46, 0x1f, 0xdd, 0x6e, 0x47, 0xae,
    0x3d, 0x0e, 0x51, 0x93, 0x9b, 0x83, 0x38, 0x27, 0xf1, 0xbf, 0x29, 0xe2, 0x74, 0xf7, 0xae, 0x1e,
    0x3b, 0xc1, 0x50, 0xa1, 0xd2, 0x10, 0xd0, 0xf2, 0x16, 0x58, 0x28, 0xdf, 0xff, 0x23, 0x6c, 0x05,
    0x91, 0x19, 0xd3, 0x3e, 0xfc, 0x0e, 0xcd, 0x50, 0xe3, 0x37, 0xbc, 0x5c, 0x5e, 0xb2, 0xca, 0xa8,
    0xda, 0xfb, 0x8a, 0xf4, 0x46, 0x86, 0x6e, 0xcd, 0xd4, 0xf7, 0xf5, 0x3c, 0xd1, 0xcb, 0x49, 0xf3,
    0x75, 0x19, 0x9b, 0x19, 0x98, 0xc8, 0xfa, 0x27, 0xa6, 0x8a, 0x90, 0x06, 0xb0, 0xa2, 0xa1, 0x05,
    0x49, 0xd9, 0x2e, 0x81, 0xe8, 0x8d, 0x3a, 0x68, 0x4d, 0xb7, 0x85, 0x13, 0x18, 0x10, 0x56, 0xfe,
    0xaf, 0x5e, 0x57, 0x07, 0x0a, 0x83, 0x68, 0x6b, 0xdf, 0xf6, 0xb0, 0xf6, 0xb3, 0x28, 0xf7, 0xc1,
    0xab, 0x9b, 0x22, 0x44, 0xbf, 0xcc, 0x6c, 0x50, 0x98, 0x92, 0x7b, 0x72, 0x92, 0xd3, 0xb4, 0xf0,
    0xca, 0xec, 0x28, 0xa7, 0xd0, 0xca, 0xdf, 0x75, 0x64, 0x9f, 0x18, 0x0a, 0x89, 0xb0, 0x40, 0x1b,
    0xd1, 0xbb, 0x87, 0x6f, 0x63, 0xc2, 0x22, 0x7e, 0xe9, 0x58, 0x16, 0x85, 0x7e, 0xd5, 0x7f, 0xa6,
    0xd3, 0x17, 0xc9, 0xe1, 0x02, 0x99, 0x99, 0x9f, 0x91, 0x06, 0x6b, 0x39, 0xb1, 0x26, 0x9f, 0x59,
    0xc7, 0x94, 0x62, 0xd5, 0x2c, 0xd7, 0x48, 0x20, 0x69, 0xdf, 0xfc, 0x41, 0x62, 0xae, 0x18, 0x6a,
    0xd2, 0x6f, 0x95, 0xd1, 0x09, 0x62, 0xb7, 0xaa, 0x82, 0xfb, 0x2e, 0x8e, 0xc1, 0xc8, 0xd1, 0x03,
    0xe4, 0x3c, 0x0f, 0xaa, 0xce, 0x39, 0x62, 0x2b, 0x0d, 0x2c, 0x97, 0xe5, 0xf1, 0x6e, 0x11, 0x85,
    0x78, 0x63, 0x49, 0xe5, 0x38, 0x91, 0xf4, 0xa7, 0xb4, 0x5b, 0xa9, 0x41, 0xd8, 0xf8, 0xb9, 0xe8,
    0xa5, 0x5b, 0x61, 0x1d, 0xbe, 0x74, 0x44, 0x01, 0x51, 0xba, 0x59, 0xb8, 0xce, 0xaa, 0x52, 0x2f,
    0x2e, 0xb9, 0xd2, 0x13, 0xa3, 0x72, 0x90, 0x70, 0xc9, 0xcb, 0x03, 0x1f, 0xcc, 0xa9, 0x54, 0x1c,
    0x28, 0x2a, 0x6a, 0xae, 0xb5, 0xdf, 0x87, 0x97, 0x7b, 0x0f, 0x23, 0x49, 0x81, 0xf9, 0x7b, 0x03,
    0x26, 0x45, 0xde, 0xf0, 0xc8, 0x31, 0x9c, 0x77, 0x85, 0x55, 0x1a, 0x21, 0x8b, 0x83, 0xec, 0x8d,
    0xe0, 0xe1, 0xdf, 0xf1, 0x6b, 0xbf, 0x8b, 0x7c, 0x56, 0xe9, 0xdc, 0x6b, 0xe6, 0x56, 0x85, 0xf1,
    0xe2, 0x5a, 0x39, 0xe6, 0x64, 0x6b, 0x6c, 0xd1, 0x0b, 0x15, 0xca, 0x6c, 0xd2, 0xd7, 0x8a, 0x02,
    0xeb, 0xbc, 0xad, 0x63, 0xa0, 0xa4, 0x9b, 0x88, 0x82, 0x0a, 0xd4, 0x16, 0x5a, 0xb0, 0xc1, 0x06,
    0x6d, 0x61, 0x87, 0xbd, 0xb1, 0x26, 0x0b, 0xf5, 0x7a, 0x4d, 0xda, 0xdb, 0x31, 0x61, 0x43, 0xe5,
    0xfd, 0x36, 0x34, 0x55, 0xad, 0x1e, 0x08, 0x6d, 0x8b, 0x2f, 0x22, 0x43, 0x69, 0x15, 0x22, 0x91,
    0x0e, 0x98, 0xa7, 0x3b, 0x96, 0xbd, 0x0e, 0xab, 0x8f, 0x47, 0xec, 0xf7, 0x8f, 0x59, 0xfb, 0x07,
    0x55, 0xa5, 0xd3, 0xdf, 0xdd, 0xd1, 0x23, 0xdf, 0xeb, 0x2c, 0xf0, 0x48, 0xb2, 0x6a, 0x3d, 0xb5,
    0x2c, 0x68, 0x68, 0x0c, 0x7c, 0xba, 0x9f, 0x72, 0x56, 0xad, 0x56, 0x75, 0xb7, 0x8c, 0x65, 0xf2,
    0x52, 0xc0, 0x9c, 0xc3, 0x26, 0xea, 0x54, 0xe6, 0xb4, 0xd6, 0x6b, 0x0c, 0x75, 0x91, 0xa2, 0x9b,
    0x54, 0x44, 0x71, 0x82, 0xb1, 0x9e, 0xf0, 0xd2, 0x3e, 0x0e, 0x99, 0xe5, 0x87, 0x17, 0xe6, 0x1d,
    0x2e, 0xb4, 0xbd, 0x67, 0xae, 0x0c, 0x36, 0x87, 0x67, 0x8c, 0x62, 0x38, 0xe2, 0x39, 0x94, 0xc9,
    0x57, 0x4e, 0xe8, 0x0f, 0x36, 0xab, 0x55, 0x8b, 0x17, 0x30, 0x1c, 0xb0, 0x88, 0xd6, 0x54, 0xcc,
    0x31, 0xf7, 0x58, 0xe3, 0xc6, 0x1d, 0xde, 0xc8, 0x84, 0x4c, 0xe4, 0x52, 0xe1, 0x1c, 0x3a, 0xca,
    0x20, 0x19, 0x85, 0x96, 0x3c, 0x41, 0x90, 0x82, 0x8b, 0x8c, 0x08, 0x5f, 0xc8, 0x33, 0x73, 0x01,
    0xeb, 0xd4, 0x2a, 0xf9, 0x59, 0x79, 0xcb, 0xff, 0x12, 0x56, 0x2a, 0x07, 0x9b, 0xfc, 0xfb, 0x8a,
    0x21, 0x85, 0x8a, 0xbf, 0xb6, 0x2e, 0x6f, 0x59, 0x9a, 0x20, 0xae, 0x34, 0x78, 0x7d, 0x7b, 0x71,
    0x4a, 0x71, 0x7a, 0x66, 0x69, 0x6c, 0xcc, 0x71, 0xf8, 0x19, 0x6d, 0xfc, 0x16, 0xa6, 0xe5, 0x78,
    0xc0, 0x5e, 0x21, 0x38, 0xcc, 0xa2, 0x64, 0xee, 0xfb, 0xcf, 0x75, 0x53, 0xfc, 0x7d, 0x92, 0x1d,
    0x10, 0x8a, 0x94, 0x9b, 0xd0, 0xd5, 0xb9, 0x38, 0x0d, 0xf4, 0xd7, 0xe4, 0x67, 0x7b, 0x3b, 0xa2,
    0x6b, 0x14, 0x20, 0xc9, 0x70, 0x86, 0xf6, 0x7e, 0x5f, 0x58, 0x84, 0xf2, 0x59, 0x68, 0x6b, 0xa6,
    0xbb, 0x45, 0xff, 0xe4, 0x8d, 0x0a, 0x0a, 0x62, 0x92, 0x56, 0x96, 0xae, 0x81, 0x97, 0x71, 0xe5,
    0xc8, 0x44, 0x02, 0x95, 0x14, 0x31, 0xf5, 0x88, 0x51, 0x08, 0x20, 0xe8, 0x92, 0xcd, 0xa7, 0x16,
    0xd3, 0x11, 0x36, 0x28, 0x75, 0x0f, 0xab, 0x83, 0x39, 0x00, 0xfa, 0xc3, 0x8e, 0x9d, 0x55, 0x1b,
    0x42, 0x4b, 0xb8, 0xc0, 0x62, 0xf2, 0x44, 0x9b, 0x4c, 0x1a, 0xd9, 0x17, 0xd5, 0x31, 0x65, 0x39,
    0x34, 0xa1, 0x8e, 0xd1, 0x80, 0x80, 0xcc, 0xd7, 0xfb, 0x34, 0xc4, 0xf4, 0x8e, 0x30, 0x35, 0x71,
    0x27, 0x2a, 0xbc, 0x63, 0xd5, 0xa0, 0xa9, 0x3b, 0x91, 0x49, 0xda, 0x57, 0x96, 0x5e, 0x7f, 0x1e,
    0x2d, 0x68, 0x5c, 0x1e, 0x14, 0x36, 0x33, 0x2b, 0x40, 0xf7, 0x8c, 0x6a, 0xb1, 0x40, 0x5d, 0x6b,
    0x70, 0x49, 0xf0, 0x01, 0xa0, 0x60, 0x1d, 0xcb, 0xa9, 0x29, 0x96, 0x77, 0xbd, 0x42, 0x75, 0x18,
    0xa3, 0x51, 0x89, 0xc0, 0x34, 0x36, 0x87, 0xbe, 0x13, 0xae, 0x8d, 0xbb, 0x13, 0x0b, 0x9f, 0xea,
    0xf2, 0x50, 0x4b, 0x44, 0x4b, 0x8c, 0x9f, 0x88, 0x0c, 0xaa, 0x68, 0x97, 0xa3, 0x59, 0xd4, 0x0b,
    0xdd, 0x50, 0x02, 0x31, 0x5f, 0xf7, 0xd4, 0xab, 0xc5, 0x14, 0xf3, 0x8c, 0x4f, 0x87, 0x66, 0x43,
    0x10, 0x8b, 0x78, 0x4f, 0xc5, 0x8f, 0x53, 0xed, 0xd7, 0xdf, 0x09, 0xfe, 0x86, 0x0e, 0x08, 0xdf,
    0xed, 0xf1, 0x7b, 0x23, 0x61, 0x38, 0x36, 0x4a, 0xb3, 0x04, 0x32, 0x76, 0x9d, 0xa0, 0x20, 0xe3,
    0x6a, 0xd0, 0x85, 0x0f, 0x2a, 0x99, 0x34, 0x81, 0x2d, 0xf6, 0xbb, 0xa9, 0x4a, 0xe5, 0x35, 0x1f,
    0x85, 0x63, 0xef, 0x2e, 0x06, 0xd4, 0x0d, 0xea, 0x87, 0x6b, 0x21, 0x88, 0x57, 0x5e, 0x64, 0x2c,
    0x7d, 0x5b, 0x7e, 0x3d, 0x8e, 0x5c, 0x01, 0x1f, 0xba, 0x9a, 0x91, 0xeb, 0x6e, 0x53, 0x95, 0x54,
    0x68, 0x65, 0x2a, 0x48, 0x98, 0x06, 0x1e, 0x91, 0x20, 0x86, 0x95, 0x77, 0xf8, 0x3b, 0x1f, 0x8f,
    0xb3, 0xcd, 0x4f, 0xea, 0x3d, 0x1a, 0x53, 0xe6, 0xbf, 0x76, 0xf1, 0x30, 0x90, 0x0a, 0x1d, 0x1d,
    0x17, 0xc6, 0xd4, 0xcd, 0xaf, 0x73, 0xfb, 0xd3, 0x0a, 0xad, 0xb2, 0xb6, 0xf5, 0x4a, 0x55, 0xbf,
    0xc6, 0x1c, 0x0f, 0x69, 0xae, 0x85, 0xf9, 0x1c, 0x29, 0x30, 0xb4, 0xf2, 0x1b, 0xf9, 0x93, 0xd4,
    0xe0, 0x48, 0x25, 0x57, 0xb1, 0x04, 0x55, 0xef, 0x72, 0xe9, 0x45, 0xae, 0x4e, 0xb1, 0xf5, 0x4c,
    0x39, 0x51, 0xb6, 0xbe, 0xdb, 0x9f, 0xfe, 0x40, 0x2d, 0xba, 0x2a, 0xd5, 0xff, 0xd6, 0x1f, 0x18,
    0x4f, 0xdd, 0x29, 0x93, 0x50, 0xbe, 0x4e, 0x29, 0x7e, 0x3b, 0xe7, 0x2a, 0xf6, 0xfa, 0x28, 0xa4,
    0xe7, 0x48, 0xcf, 0x52, 0xbe, 0xf8, 0x6b, 0xce, 0xa4, 0xec, 0xc9, 0xad, 0x89, 0x9d, 0xa6, 0xd3,
    0xc0, 0xc5, 0xc2, 0x5d, 0x0e, 0x50, 0x7a, 0xb3, 0xff, 0x98, 0x94, 0x02, 0xa0, 0xaa, 0xcc, 0xe2,
    0x6d, 0xf0, 0x9d, 0xd2, 0x2c, 0x7e, 0xbb, 0xb1, 0x95, 0x1a, 0xb6, 0xd6, 0xfb, 0x7b, 0x42, 0x04,
];

/// Rows 128 to 159 of the generating matrix.
pub const PRECOMPUTED_ROWS_4: [u8; PRECOMPUTED_PART_SIZE] = [
    0xbc, 0x70, 0xdf, 0xbe, 0x40, 0x69, 0x8a, 0xf1, 0x63, 0x8f, 0xe3, 0x8b, 0xd3, 0xdf, 0x3b, 0x2f,
    0xa9, 0x18, 0xc3, 0xf0, 0x0b, 0x92, 0xd7, 0x76, 0x1b, 0x1e, 0xc0, 0x9f, 0x1c, 0xa2, 0x58, 0xa1,
    0x9f, 0x83, 0xb2, 0x83, 0x24, 0x85, 0xc2, 0xef, 0xd2, 0x45, 0x20, 0x63, 0x4a, 0x95, 0x2c, 0x39,
    0x6e, 0xcf, 0x12, 0x4e, 0xb1, 0x60, 0xf3, 0x9c, 0xe1, 0xf4, 0x4e, 0x9c, 0xb0, 0x04, 0x21, 0x05,
    0x5b, 0x5b, 0x82, 0x40, 0xc4, 0x2b, 0x5a, 0xa6, 0x52, 0xf5, 0xc3, 0x8c, 0x14, 0xe7, 0xe9, 0xcb,
    0xcd, 0x83, 0x76, 0xec, 0x81, 0x53, 0xca, 0x00, 0xfa, 0x89, 0x3d, 0x68, 0x74, 0xd3, 0x5f, 0x86,
    0xf1, 0x5b, 0x47, 0xb3, 0xf8, 0x15, 0x5b, 0xb7, 0x9d, 0x4e, 0x8d, 0x7d, 0x55, 0x67, 0x96, 0x01,
    0x72, 0x4f, 0xc4, 0xc2, 0x9b, 0x7b, 0xc6, 0x27, 0x2a, 0x34, 0xbb, 0xd0, 0xaa, 0x89, 0xcb, 0x05,
    0x60, 0x5f, 0x75, 0x3d, 0x4b, 0x5b, 0x63, 0x46, 0x10, 0x88, 0x81, 0x86, 0x8c, 0x8c, 0xe7, 0x51,
    0x58, 0xed, 0xcd, 0x91, 0xc9, 0xae, 0x41, 0x75, 0xc3, 0x3e, 0xac, 0xd3, 0x42, 0xf9, 0x26, 0x79,
    0xe2, 0x93, 0xbd, 0x4c, 0xd0, 0x1a, 0x85, 0xec, 0xab, 0x6f, 0x50, 0x73, 0x4a, 0x9d, 0x24, 0x15,
    0x5b, 0xca, 0x5a, 0x46, 0xc1, 0x4a, 0x2b, 0x13, 0x08, 0x30, 0xff, 0xb5, 0x17, 0x13, 0xbb, 0x13,
    0xe8, 0x6f, 0x92, 0xf7, 0xa2, 0xe9, 0x88, 0x92, 0x41, 0x0c, 0x36, 0x0d, 0xa9, 0x29, 0x98, 0xed,
    0x31, 0xb3, 0x3c, 0xc5, 0x14, 0x61, 0x93, 0xf5, 0xa8, 0x01, 0x1e, 0x72, 0x9a, 0x47, 0xe2, 0xc8,
    0x92, 0x90, 0x5b, 0x05, 0xd5, 0xd5, 0x5e, 0x50, 0xa5, 0xee, 0x1f, 0x42, 0x16, 0xac, 0x43, 0x0b,
    0x77, 0x09, 0x9a, 0xc7, 0x10, 0x14, 0xd7, 0x9c, 0x96, 0xe0, 0x2d, 0x91, 0x3a, 0xeb, 0xb8, 0x04,
    0xf9, 0x5a, 0x86, 0x1e, 0x88, 0xe9, 0x57, 0x4d, 0x84, 0xc0, 0x0c, 0x6e, 0xc3, 0x14, 0x47, 0x75,
    0xb9, 0xb3, 0x87, 0x31, 0x4e, 0xeb, 0x3e, 0x0b, 0xb0, 0xbf, 0x36, 0x34, 0x7c, 0xca, 0xf7, 0x8b,
    0xa7, 0x0b, 0xc5, 0x55, 0xc7, 0x25, 0x92, 0x67, 0xa5, 0x37, 0xc2, 0x30, 0xb0, 0x1b, 0xb8, 0xbf,
    0xd4, 0xa2, 0x62, 0x61, 0x0f, 0xe9, 0x83, 0xf4, 0x6a, 0x3c, 0xd1, 0x67, 0xd3, 0x5a, 0xf5, 0x0f,
    0x7f, 0x06, 0x74, 0x5f, 0xb3, 0x39, 0x50, 0x41, 0x55, 0xe3, 0x97, 0xad, 0x8b, 0x59, 0x9f, 0xf2,
    0x54, 0x05, 0x24, 0x60, 0x84, 0x28, 0x4a, 0x9e, 0x18, 0xbd, 0x75, 0x1b, 0x98, 0x37, 0x73, 0x0f,
    0xef, 0x79, 0x78, 0x61, 0x76, 0x46, 0xc8, 0x5d, 0x2a, 0x10, 0x42, 0x36, 0x29, 0xca, 0xad, 0xab,
    0x7d, 0xa2, 0xbd, 0xa5, 0x1d, 0x71, 0xfa, 0x88, 0xe1, 0x01, 0x26, 0xf7, 0x71, 0x16, 0x24, 0x0c,
    0x1a, 0xb1, 0xa7, 0xc7, 0xf7, 0x1b, 0xa2, 0x11, 0x4f, 0xa6, 0x3d, 0xb2, 0x3d, 0x80, 0x57, 0xa9,
    0xba, 0x46, 0xd6, 0x54, 0xc1, 0x63, 0x11, 0x49, 0xab, 0x7d, 0x6c, 0xc1, 0x46, 0x4e, 0x75, 0x3e,
    0xac, 0xec, 0xa8, 0x80, 0x73, 0x92, 0x13, 0x5b, 0xf6, 0x60, 0x01, 0xa6, 0xf8, 0x2b, 0xfd, 0xef,
    0x6d, 0x63, 0x2e, 0x9c, 0x6f, 0xd4, 0x9b, 0xd6, 0x97, 0x11, 0xfb, 0xd5, 0x03, 0x9f, 0x47, 0x07,
    0xa6, 0xd0, 0xd7, 0xfa, 0xda, 0x96, 0x88, 0x72, 0x6a, 0x19, 0xc2, 0x98, 0xdb, 0xe9, 0x1a, 0x9a,
    0x66, 0x4f, 0xd3, 0x86, 0x84, 0x1d, 0xa8, 0x20, 0x99, 0xed, 0xa0, 0x1a, 0x6e, 0xec, 0x1c, 0x3f,
    0xf8, 0x8c, 0x74, 0xcc, 0x7f, 0xbc, 0x04, 0xeb, 0xd1, 0x68, 0xbc, 0xc2, 0x39, 0x40, 0x71, 0xed,
    0xf1, 0x8c, 0x4b, 0x8c, 0xf2, 0x62, 0x94, 0x04, 0x70, 0x65, 0xaa, 0xbd, 0x26, 0xe1, 0x7b, 0x14,
    0xf7, 0x5d, 0x9e, 0x5f, 0x3e, 0xcb, 0x5c, 0x30, 0x1c, 0x46, 0x4b, 0x85, 0x74, 0xd1, 0xe2, 0x4f,
    0x0c, 0x8d, 0x68, 0x99, 0x3f, 0x3c, 0x41, 0x12, 0xe4, 0xae, 0xa0, 0x18, 0x3b, 0x54, 0x28, 0x8b,
    0x73, 0xa9, 0xf4, 0xfe, 0xdc, 0xe7, 0x4e, 0xaf, 0x0d, 0x6f, 0x62, 0x08, 0x55, 0xe7, 0xf5, 0xdd,
    0xd4, 0x14, 0x6e, 0x8e, 0x1a, 0x12, 0x4e, 0x3a, 0x77, 0xda, 0x1c, 0xe6, 0x06, 0xfe, 0xa7, 0x09,
    0x31, 0x4b, 0x7f, 0x0f, 0x04, 0xc8, 0x4a, 0xb8, 0x01, 0xe4, 0xf5, 0x59, 0x6f, 0x88, 0x36, 0x08,
    0xf0, 0x74, 0xd8, 0x8f, 0x3b, 0xfb, 0x11, 0xde, 0xc7, 0x27, 0xcb, 0xfe, 0xb9, 0xe5, 0x00, 0x40,
    0xf8, 0xba, 0xff, 0x7b, 0xe5, 0x01, 0xf6, 0x06, 0x25, 0x19, 0x49, 0x2c, 0x97, 0x55, 0x8b, 0x99,
    0x95, 0x42, 0x72, 0x50, 0x82, 0x2a, 0x9b, 0x8d, 0xd3, 0x9d, 0x1d, 0x4f, 0x5c, 0x2d, 0x6d, 0x19,
    0x4d, 0xb2, 0x79, 0xbd, 0xdf, 0xef, 0xa2, 0x32, 0x22, 0x07, 0x0a, 0xab, 0x30, 0x65, 0x35, 0xae,
    0xe6, 0x36, 0xba, 0x51, 0x81, 0x0e, 0x9e, 0x2f, 0x42, 0xf3, 0xf7, 0x6b, 0xeb, 0x36, 0xc5, 0x20,
    0x5d, 0xe6, 0x89, 0x17, 0xdb, 0x41, 0x80, 0xe7, 0x48, 0xb9, 0x23, 0x69, 0x0d, 0xe2, 0xd4, 0xf4,
    0x69, 0x39, 0x6e, 0x3b, 0xee, 0xa4, 0xa4, 0xc3, 0x4b, 0x9a, 0xd3, 0xb7, 0xa5, 0x83, 0x8e, 0x09,
    0x5f, 0x65, 0xfd, 0x05, 0xeb, 0xab, 0xa9, 0xbf, 0x1d, 0x9c, 0x07, 0x29, 0x8e, 0x17, 0xe2, 0x33,
    0x47, 0x4c, 0xf0, 0x93, 0xd9, 0x6f, 0x73, 0x23, 0xef, 0x5f, 0x3a, 0x33, 0x2f, 0xfb, 0xa8, 0x31,
    0x9a, 0xf6, 0x7f, 0x1f, 0x57, 0xb6, 0x62, 0x56, 0x5b, 0x61, 0x80, 0x19, 0x5f, 0x23, 0xa2, 0xe4,
    0x0f, 0x2b, 0x99, 0x0b, 0xfb, 0x69, 0x5e, 0x3e, 0xae, 0x61, 0x86, 0x92, 0x2e, 0x39, 0xbb, 0x03,
    0xa2, 0xa4, 0xe5, 0xff, 0x5f, 0x83, 0xf5, 0xbd, 0x3d, 0xcc, 0x63, 0xfb, 0xcd, 0xb9, 0xef, 0x2b,
    0xe9, 0x8f, 0xeb, 0x48, 0x7a, 0x23, 0xc9, 0xa7, 0x05, 0xab, 0x9d, 0x08, 0x42, 0x24, 0x9d, 0xfd,
    0x0e, 0x33, 0x82, 0x7a, 0x17, 0x6c, 0x7f, 0xd6, 0xbc, 0x7c, 0xa6, 0x84, 0x4f, 0x57, 0xdc, 0x92,
    0xc6, 0xae, 0xf1, 0xc3, 0x7f, 0x9a, 0xa2, 0x12, 0x4d, 0x17, 0xd0, 0x35, 0x54, 0x6d, 0x84, 0x0e,
    0xb7, 0x3e, 0xb8, 0x84, 0x89, 0xdc, 0x42, 0x47, 0x0f, 0xeb, 0x5c, 0xd3, 0x37, 0x17, 0xf7, 0x82,
    0xd2, 0x43, 0xd2, 0xb2, 0xe7, 0x04, 0xce, 0x5d, 0x89, 0xed, 0x67, 0xf9, 0x4c, 0xce, 0xff, 0x45,
    0x0d, 0x72, 0xbd, 0xbf, 0xc7, 0xa9, 0x90, 0xc9, 0x5d, 0x24, 0x64, 0xe7, 0x46, 0xb4, 0x7b, 0x7f,
    0x40, 0xa7, 0xab, 0x76, 0xd7, 0xe9, 0x58, 0xce, 0xc7, 0xe8, 0xb6, 0x5f, 0x7b, 0x49, 0x2f, 0x1c,
    0x08, 0x94, 0xca, 0x58, 0xff, 0xb7, 0x6b, 0x8b, 0xe5, 0xfa, 0xca, 0xde, 0x77, 0x69, 0x71, 0x45,
    0x96, 0x5f, 0x49, 0xc5, 0xec, 0xe0, 0xe2, 0x22, 0x8b, 0xef, 0x4a, 0xf1, 0xb1, 0x6c, 0xc8, 0x7a,
    0xed, 0x92, 0x54, 0xde, 0xe6, 0xf5, 0x3e, 0x3c, 0x58, 0x42, 0xc4, 0x10, 0xc9, 0xa9, 0x36, 0x23,
    0x63, 0xb9, 0x66, 0xbe, 0x96, 0x80, 0x27, 0x01, 0xb5, 0x5a, 0x5d, 0xaf, 0x9e, 0x30, 0x4d, 0x0f,
    0x14, 0x53, 0xc4, 0x91, 0x6a, 0x0e, 0x77, 0xbb, 0x81, 0x00, 0x55, 0x40, 0x4a, 0x5f, 0x37, 0x22,
    0xee, 0x76, 0xee, 0xf6, 0xbd, 0x0f, 0x1e, 0x75, 0xf4, 0x98, 0xb2, 0xee, 0x48, 0x18, 0x26, 0xf5,
    0xf2, 0x60, 0xdf, 0x29, 0x95, 0x41, 0x46, 0x7d, 0x7c, 0xd2, 0x40, 0x33, 0x38, 0x9d, 0x35, 0x29,
    0x75, 0xc6, 0x91, 0x18, 0x0a, 0x79, 0xfe, 0xf4, 0x8a, 0xec, 0xef, 0x08, 0x2c, 0x37, 0xce, 0x06,
    0x9c, 0x67, 0x05, 0x1b, 0xf8, 0xee, 0x3b, 0x7c, 0xe2, 0x37, 0xee, 0x22, 0xcf, 0xac, 0xbf, 0xd8,
    0x2b, 0x9e, 0x83, 0xc2, 0xe0, 0x6c, 0xee, 0x06, 0x15, 0x1a, 0xdb, 0x13, 0x1b, 0xe9, 0x0d, 0x57,
    0x4a, 0x3b, 0x03, 0x0d, 0x7e, 0xe0, 0xe4, 0xb4, 0x0d, 0xe6, 0xd1, 0xce, 0xf9, 0x8c, 0xe0, 0x72,
    0xe8, 0x6d, 0x7f, 0x1d, 0x54, 0x78, 0xbc, 0xd6, 0xdd, 0x2e, 0x0b, 0x60, 0x34, 0xcc, 0xf2, 0x1a,
    0xd5, 0xcf, 0x10, 0xdf, 0x70, 0xce, 0x98, 0xc6, 0x2e, 0x8d, 0x31, 0x01, 0x70, 0x72, 0x2b, 0x79,
    0x9e, 0x09, 0x5a, 0x96, 0x4f, 0xf0, 0x54, 0x46, 0x00, 0xe8, 0x7b, 0x91, 0xb8, 0x60, 0x24, 0x02,
    0x9c, 0xc6, 0x52, 0x57, 0xc8, 0xd9, 0x66, 0x4e, 0x3c, 0x78, 0xf2, 0x63, 0xfd, 0xf9, 0x95, 0x46,
    0x11, 0x07, 0xa3, 0xd2, 0x73, 0xe7, 0xcd, 0xfd, 0x9b, 0xa4, 0x73, 0x3d, 0x06, 0xd8, 0x8b, 0x1f,
    0xa7, 0x99, 0x75, 0x8b, 0x79, 0x2d, 0x1c, 0x07, 0x95, 0x27, 0xff, 0x8a, 0xb0, 0xce, 0x10, 0x60,
    0x96, 0xde, 0xb7, 0x2e, 0xbe, 0x8e, 0xb7, 0x12, 0xd7, 0x30, 0xc2, 0x46, 0x79, 0xe1, 0x87, 0xf4,
    0x1e, 0xd4, 0x5b, 0x53, 0x1a, 0x59, 0x93, 0xde, 0xfd, 0xef, 0x06, 0xf4, 0x6e, 0x00, 0xbf, 0x3d,
    0x52, 0x1e, 0x08, 0x79, 0x0e, 0x5b, 0x3f, 0x41, 0x1f, 0xf2, 0x86, 0xeb, 0x0b, 0x55, 0x18, 0x00,
    0xa5, 0xd8, 0xb2, 0x9a, 0x75, 0xaf, 0x00, 0xa2, 0xd7, 0xa4, 0x1b, 0xba, 0xa5, 0xb3, 0x03, 0xf8,
    0x06, 0x0c, 0xd9, 0x24, 0xf8, 0xf7, 0xd6, 0xb7, 0x3d, 0xc8, 0x60, 0x9e, 0xe5, 0x66, 0x46, 0x50,
    0x1b, 0x66, 0x08, 0x47, 0x60, 0x70, 0x6b, 0x0d, 0xd0, 0x8e, 0xd9, 0x76, 0xff, 0xa9, 0xdb, 0x73,
    0x6f, 0x03, 0x56, 0xe5, 0x29, 0x85, 0x8a, 0x28, 0x39, 0xec, 0x1f, 0x7e, 0x0d, 0x28, 0xc3, 0x01,
    0x18, 0x73, 0xcf, 0xef, 0xf7, 0xd0, 0xab, 0x0f, 0xf2, 0x9c, 0x7d, 0x6a, 0xc2, 0x12, 0xa8, 0x33,
    0xd4, 0x0a, 0xd6, 0x23, 0xb9, 0x19, 0xef, 0x89, 0x9e, 0x9e, 0xdf, 0x4c, 0xd8, 0xb2, 0x56, 0x8e,
    0xa7, 0x80, 0x60, 0x7f, 0x7e, 0xc8, 0xd4, 0x89, 0xc0, 0x63, 0xf9, 0x46, 0xb9, 0x49, 0x66, 0xd1,
    0x0e, 0xf8, 0xa7, 0x21, 0xce, 0xc5, 0x77, 0x38, 0x94, 0x65, 0xc5, 0xce, 0xb3, 0x4c, 0x0c, 0x18,
    0x70, 0x16, 0x9d, 0xf9, 0x0c, 0xcf, 0xc2, 0xae, 0x16, 0x09, 0x6a, 0xea, 0x3f, 0x50, 0xe5, 0x44,
    0xb0, 0x07, 0x8e, 0x86, 0xd4, 0xf5, 0x17, 0x2a, 0x2a, 0x81, 0xdf, 0x84, 0xda, 0xf4, 0xb9, 0x12,
    0x8a, 0xad, 0x2e, 0x28, 0xe4, 0xac, 0x0f, 0x1a, 0x8c, 0x80, 0x92, 0xc1, 0x31, 0x76, 0x0e, 0xbd,
    0x3a, 0x93, 0x70, 0x11, 0x95, 0xed, 0x4f, 0xa3, 0x7c, 0x1b, 0x88, 0xfc, 0xc2, 0xac, 0xf3, 0x01,
    0xa6, 0x0b, 0x7c, 0xe8, 0x4e, 0x2b, 0x7e, 0xda, 0x66, 0xee, 0x38, 0x27, 0x94, 0x52, 0x77, 0xd2,
    0xa9, 0x33, 0x72, 0xcf, 0xd7, 0xaf, 0x63, 0xdc, 0x46, 0xaa, 0x55, 0x5d, 0x53, 0x18, 0x12, 0x3f,
    0xe3, 0xba, 0x6f, 0xfa, 0xd0, 0x87, 0x22, 0xeb, 0x38, 0x8a, 0xaa, 0x00, 0xd3, 0x24, 0xfe, 0x9d,
    0xbe, 0x5d, 0xe1, 0x9d, 0xb2, 0x49, 0xb8, 0x6d, 0xf7, 0x8e, 0xda, 0x41, 0x26, 0xe2, 0xcd, 0x0b,
    0x63, 0x0b, 0x9b, 0xa0, 0x7d, 0xfb, 0x7c, 0xe3, 0x79, 0x1a, 0xc0, 0x5f, 0x4d, 0x19, 0x21, 0x2c,
    0x39, 0x04, 0x07, 0x8e, 0xf9, 0xd7, 0x70, 0x44, 0xe2, 0x47, 0x9c, 0xd1, 0x19, 0xf6, 0xd9, 0x18,
    0xb1, 0x3a, 0x11, 0x58, 0x30, 0x05, 0x98, 0x19, 0x55, 0x75, 0xbe, 0xd2, 0xa5, 0x41, 0x91, 0xcd,
    0x0f, 0xd0, 0x9d, 0x10, 0x10, 0x2d, 0xed, 0x79, 0x19, 0xc1, 0x37, 0x43, 0x1e, 0xcd, 0x5b, 0x10,
    0x63, 0xb5, 0x5b, 0xbc, 0xdf, 0xf7, 0x4b, 0x98, 0x63, 0x4c, 0x75, 0x23, 0x67, 0x8e, 0xce, 0x6d,
    0xbf, 0xaf, 0xe1, 0x63, 0x08, 0xe5, 0xd7, 0x52, 0x53, 0xd8, 0xa5, 0x99, 0x88, 0x00, 0xec, 0x54,
    0x3e, 0x19, 0x8b, 0x82, 0x1a, 0x2c, 0x8e, 0xcc, 0xdb, 0x38, 0x89, 0x3a, 0x31, 0x34, 0xb7, 0x12,
    0xbb, 0x68, 0xba, 0xb4, 0xaf, 0xb9, 0x96, 0xe4, 0xa0, 0x2c, 0xb6, 0xc4, 0x85, 0x03, 0x3b, 0x09,
    0x03, 0xd4, 0x85, 0xe2, 0x9b, 0x00, 0x96, 0x7c, 0xf7, 0x87, 0x27, 0x48, 0xfb, 0x8e, 0x5e, 0x83,
    0xf5, 0x35, 0xcc, 0x17, 0x42, 0x6d, 0x01, 0x88, 0x52, 0x96, 0x1a, 0x9d, 0x73, 0x97, 0xbc, 0x93,
    0x21, 0xd5, 0xc0, 0xc3, 0x88, 0x72, 0x0a, 0x86, 0x86, 0x88, 0xd1, 0xa1, 0x25, 0x0b, 0xa2, 0xbd,
    0x67, 0xba, 0xfd, 0xbe, 0x50, 0xf0, 0x8b, 0x75, 0x26, 0xa1, 0x35, 0x67, 0xf8, 0xdf, 0x83, 0x05,
    0xae, 0x65, 0x31, 0x9c, 0x6c, 0x4e, 0x81, 0xf9, 0xda, 0x72, 0x3a, 0xa2, 0xfb, 0x70, 0x26, 0xd1,
    0xcd, 0x97, 0x0b, 0xd5, 0x3b, 0x56, 0x79, 0x4a, 0x85, 0x70, 0x0d, 0x9c, 0x39, 0x70, 0xf5, 0xf4,
    0xc5, 0x3c, 0x02, 0x74, 0x92, 0x37, 0xb5, 0x75, 0x59, 0xcf, 0x20, 0xc5, 0x0e, 0x6b, 0xf5, 0xb5,
    0xdc, 0x51, 0xf1, 0xdf, 0x18, 0x07, 0xf9, 0x38, 0xa9, 0x09, 0x38, 0x62, 0xb2, 0x52, 0x0c, 0x1c,
    0xe1, 0x0d, 0x69, 0x80, 0xc6, 0x53, 0x9c, 0x1f, 0x19, 0xa5, 0xa5, 0x7f, 0x5f, 0x50, 0x86, 0x8f,
    0x9a, 0x7e, 0x47, 0x1e, 0x9e, 0xea, 0x3d, 0x91, 0xc2, 0xee, 0x9b, 0xaf, 0x9a, 0x5c, 0x91, 0x0b,
    0xf4, 0xe0, 0x12, 0x3a, 0x46, 0x9a, 0x07, 0x82, 0x9b, 0x48, 0x68, 0x9f, 0x6a, 0x81, 0xe6, 0x17,
    0x72, 0x5f, 0xe6, 0x1e, 0xfc, 0x4e, 0x5c, 0x58, 0xae, 0xaf, 0x2a, 0x5e, 0x1f, 0x96, 0x2c, 0x0b,
    0xa9, 0x30, 0xe1, 0x50, 0x50, 0xb2, 0x61, 0xca, 0x27, 0x45, 0xee, 0xdb, 0x77, 0x3c, 0xcd, 0x74,
    0x82, 0x76, 0x55, 0xbe, 0x29, 0xe3, 0x84, 0x95, 0xe2, 0x39, 0x70, 0x54, 0x52, 0x64, 0x3c, 0x1c,
    0x29, 0x48, 0x1d, 0x28, 0x20, 0x45, 0x42, 0xaa, 0xcf, 0xa0, 0x5b, 0xc6, 0xc9, 0x52, 0xc7, 0xe2,
    0x61, 0x5a, 0x47, 0x92, 0xe4, 0x1a, 0xbf, 0x7f, 0x14, 0xa7, 0xc3, 0x7d, 0x0e, 0xf4, 0x22, 0x08,
    0x74, 0x75, 0x83, 0x5f, 0xaa, 0x79, 0x8f, 0x27, 0xab, 0x7d, 0x14, 0x77, 0x64, 0xec, 0xd7, 0x34,
    0xfe, 0x40, 0x97, 0xa2, 0xc1, 0x02, 0x78, 0x8a, 0xcc, 0x70, 0xfe, 0x2b, 0x37, 0x05, 0xcb, 0x2b,
    0x40, 0x1d, 0xe8, 0xf8, 0x06, 0x56, 0x0a, 0x05, 0xcb, 0xa4, 0xe0, 0xb7, 0xcb, 0x32, 0xa4, 0x12,
    0x0c, 0x5b, 0x04, 0xdd, 0xd4, 0x70, 0x81, 0xfe, 0x8a, 0x34, 0xd5, 0x4d, 0x9a, 0x64, 0xc9, 0x06,
    0x8b, 0xbd, 0x0d, 0x4f, 0x48, 0xf4, 0x7a, 0x08, 0x19, 0x7d, 0x7c, 0xe3, 0xcb, 0x0c, 0x1e, 0x0d,
    0xdc, 0x0c, 0xa6, 0x8b, 0xac, 0xca, 0xf6, 0x00, 0xa1, 0xef, 0x88, 0x26, 0xe2, 0x1e, 0x95, 0x30,
    0x1e, 0xa0, 0xcf, 0x12, 0x43, 0xc1, 0x89, 0xab, 0xb8, 0x95, 0x20, 0x2d, 0x50, 0x99, 0x11, 0x1d,
    0x19, 0x20, 0x37, 0x88, 0x37, 0x1a, 0x87, 0xf0, 0xd6, 0x70, 0xe7, 0x1a, 0x8f, 0x51, 0x19, 0x0e,
    0xc5, 0x2c, 0xdf, 0xc5, 0xa5, 0x8f, 0x8d, 0xa1, 0x06, 0x23, 0xcd, 0x1b, 0x8b, 0xc0, 0x22, 0xdd,
    0x8a, 0xa7, 0x90, 0xd8, 0x7d, 0xdc, 0xc8, 0xa3, 0x6e, 0xa5, 0xe0, 0x55, 0x1e, 0x59, 0x95, 0xfe,
    0xc1, 0x7c, 0x30, 0x5b, 0x91, 0xb1, 0x1a, 0x11, 0x28, 0xbd, 0xb0, 0x58, 0xb3, 0xe3, 0xcd, 0x81,
    0x1c, 0x9b, 0x11, 0x4a, 0xdf, 0x00, 0x98, 0x5f, 0x9f, 0x07, 0xde, 0xe5, 0x8b, 0x3f, 0x9a, 0x10,
];

/// Rows 160 to 191 of the generating matrix.
pub const PRECOMPUTED_ROWS_5: [u8; PRECOMPUTED_PART_SIZE] = [
    0x4b, 0x4e, 0x40, 0xea, 0x5f, 0xd9, 0x98, 0x91, 0xfe, 0xfb, 0xf7, 0x55, 0xd7, 0x7a, 0xbb, 0xf9,
    0xb0, 0x8b, 0x3a, 0xd3, 0xc9, 0x26, 0xf9, 0x37, 0xfc, 0x2a, 0x7c, 0xab, 0xc8, 0xa7, 0xfe, 0x1b,
    0xc7, 0x63, 0xb5, 0xb9, 0xbc, 0x37, 0x91, 0xef, 0x46, 0x35, 0x2f, 0x29, 0xe3, 0xb4, 0x6c, 0x48,
    0x6f, 0x2f, 0x6e, 0x24, 0x92, 0xf2, 0xd7, 0x9d, 0x41, 0xf2, 0x0a, 0xbd, 0x99, 0x2b, 0xf2, 0x0d,
    0x14, 0x86, 0xb5, 0x01, 0xc3, 0xdd, 0xc7, 0xf9, 0x4f, 0x4f, 0xa5, 0xb7, 0x04, 0xe9, 0xf4, 0xf9,
    0x78, 0x39, 0x01, 0x6d, 0xd6, 0x10, 0x83, 0x4f, 0xa6, 0x6f, 0xfe, 0x24, 0xd9, 0x9a, 0x98, 0x90,
    0xe2, 0x76, 0xa8, 0x43, 0x88, 0x83, 0xb9, 0xda, 0xf1, 0xd3, 0x25, 0x97, 0x20, 0x42, 0x20, 0x34,
    0x3c, 0x1f, 0xe2, 0xcc, 0x0d, 0x84, 0x35, 0x30, 0x4f, 0xa2, 0xac, 0x41, 0xa0, 0xd8, 0xbb, 0x17,
    0x3e, 0x5f, 0xe8, 0x9b, 0x30, 0x70, 0xb8, 0x22, 0xf3, 0x58, 0xc0, 0xd2, 0xf3, 0xeb, 0xa9, 0x00,
    0x6b, 0xbc, 0xb7, 0x45, 0x51, 0x1f, 0xdd, 0x41, 0x59, 0x57, 0x59, 0xc4, 0xe7, 0x04, 0xf0, 0x53,
    0xee, 0x3f, 0xcf, 0x46, 0xa5, 0x03, 0x43, 0x47, 0xa8, 0xfa, 0xe6, 0x6f, 0xe0, 0xeb, 0x19, 0xb4,
    0xd2, 0x35, 0x5f, 0xf1, 0x28, 0x84, 0xf3, 0x38, 0x98, 0x44, 0x06, 0xf4, 0x86, 0xa6, 0x71, 0x0c,
    0x22, 0x05, 0x65, 0x60, 0xd5, 0x5b, 0x3e, 0xb1, 0x1d, 0x11, 0xa4, 0x20, 0xd3, 0xf4, 0x57, 0xd7,
    0x60, 0xb4, 0x3b, 0xfa, 0x21, 0x6f, 0x78, 0x4b, 0xb6, 0xf9, 0xeb, 0x2e, 0xb0, 0xdf, 0x6f, 0xdd,
    0x0b, 0xb0, 0x4b, 0xc6, 0x80, 0xff, 0x90, 0xc1, 0xc1, 0x6d, 0x32, 0x85, 0xe7, 0x20, 0xff, 0xb3,
    0x1d, 0xd5, 0x8e, 0x73, 0x48, 0x1b, 0x4d, 0xe8, 0x31, 0xb4, 0xa0, 0x5c, 0xf7, 0x42, 0x56, 0x04,
    0x9c, 0x69, 0xfc, 0xa4, 0x82, 0x1a, 0xcb, 0x32, 0x00, 0xd3, 0xa0, 0xfe, 0x45, 0x11, 0x9b, 0x95,
    0x13, 0x88, 0x6f, 0xbd, 0x9b, 0x64, 0xf5, 0x2f, 0x3d, 0x25, 0x76, 0xd7, 0x22, 0xd8, 0x79, 0xa8,
    0x7f, 0xab, 0xe6, 0xbc, 0x01, 0x75, 0x91, 0x73, 0xc5, 0x3a, 0x37, 0x1e, 0x4b, 0x2f, 0x8b, 0x0f,
    0x25, 0xa4, 0xac, 0x44, 0x82, 0xec, 0xdc, 0x4c, 0xc1, 0xf9, 0xb4, 0x0b, 0xea, 0x62, 0xd0, 0x08,
    0x67, 0x47, 0x30, 0xf6, 0xd1, 0x1b, 0x75, 0xb2, 0x88, 0xd5, 0x2b, 0x17, 0x63, 0x53, 0xc4, 0xcf,
    0xbd, 0x18, 0xb8, 0xbd, 0xa1, 0x98, 0x23, 0xcd, 0x85, 0x37, 0x92, 0xf5, 0x1c, 0xff, 0x28, 0x84,
    0x59, 0x35, 0x68, 0x10, 0xc0, 0xda, 0x60, 0x8a, 0x16, 0xdb, 0x9e, 0xe7, 0x26, 0xa1, 0x98, 0x07,
    0xe5, 0xd6, 0x2e, 0x3f, 0x4a, 0x4b, 0xb2, 0x67, 0x95, 0x5b, 0x38, 0x47, 0x66, 0x11, 0xc4, 0x03,
    0x01, 0x3d, 0xd7, 0xaa, 0xcd, 0x8a, 0xb4, 0x19, 0x57, 0x90, 0xd4, 0xff, 0x10, 0x6a, 0xd0, 0x6f,
    0x07, 0x55, 0xd8, 0x05, 0x83, 0xbd, 0x0e, 0xd9, 0xd2, 0xe8, 0x60, 0x8b, 0xed, 0x5d, 0x87, 0x50,
    0x74, 0xf2, 0x41, 0xe6, 0x1d, 0x56, 0x3f, 0x55, 0xf1, 0x53, 0x01, 0x10, 0x41, 0xe6, 0x4a, 0x15,
    0xa9, 0x6b, 0x9d, 0x9d, 0x40, 0x96, 0x0a, 0x54, 0xe4, 0x40, 0x3e, 0x81, 0xb4, 0xd3, 0x2e, 0x18,
    0x5a, 0x67, 0xd1, 0x41, 0xae, 0xae, 0xde, 0xeb, 0x3a, 0x54, 0xe6, 0xe4, 0xbb, 0x0f, 0xf5, 0x93,
    0xa2, 0xbb, 0x03, 0xa5, 0x43, 0x72, 0x32, 0xb8, 0xad, 0xb5, 0x07, 0x5d, 0xea, 0x43, 0x0a, 0x22,
    0xd5, 0xb0, 0x54, 0x47, 0x4d, 0x8f, 0x0c, 0x61, 0xfb, 0x7a, 0x86, 0xf3, 0x3f, 0x4e, 0x4c, 0x09,
    0x6f, 0xf3, 0x1c, 0x48, 0xd5, 0xa3, 0x2e, 0xb5, 0xe0, 0xa1, 0xcc, 0x78, 0x7f, 0x07, 0x04, 0x1c,
    0xbc, 0xe6, 0x13, 0x80, 0x9b, 0x03, 0x71, 0x19, 0x09, 0x0e, 0xe2, 0x27, 0xfa, 0x15, 0x87, 0x6e,
    0xaf, 0xf1, 0x3c, 0x0d, 0x4c, 0x4a, 0xf2, 0xd4, 0x2c, 0x42, 0x29, 0x2f, 0x6d, 0xa9, 0xab, 0xf9,
    0xaa, 0xaa, 0xf9, 0xeb, 0x05, 0xeb, 0x39, 0x43, 0xae, 0xf0, 0x54, 0xef, 0x97, 0xa9, 0xf1, 0xab,
    0x22, 0x67, 0xeb, 0x00, 0x8f, 0x78, 0x78, 0x70, 0x38, 0xf0, 0x6b, 0xf0, 0x36, 0x98, 0x33, 0x0b,
    0x08, 0xf4, 0xcc, 0xc6, 0x66, 0xc4, 0x8c, 0x1c, 0x4f, 0xd5, 0x9f, 0x7b, 0xd3, 0xdb, 0x61, 0x20,
    0xe1, 0x39, 0xd0, 0xaa, 0x8a, 0x78, 0x0c, 0xb1, 0xfd, 0xb1, 0xd6, 0x20, 0xf9, 0xa7, 0xd7, 0xe5,
    0xff, 0xa0, 0x04, 0xe3, 0xf6, 0xb6, 0x8d, 0xfc, 0x7e, 0xd9, 0x57, 0xc7, 0x49, 0x10, 0x21, 0xd3,
    0x11, 0x95, 0xc8, 0xad, 0xbc, 0xca, 0x89, 0xa2, 0xbb, 0x87, 0x46, 0x05, 0x86, 0x30, 0x18, 0x07,
    0x3d, 0xb6, 0xb1, 0x6f, 0xeb, 0x11, 0x00, 0x9f, 0x7f, 0x57, 0x88, 0x71, 0xed, 0xfd, 0x28, 0x4b,
    0x20, 0xa3, 0x05, 0x8e, 0x14, 0x72, 0x93, 0x98, 0xc6, 0x9c, 0xa8, 0x2f, 0x1b, 0xd6, 0x69, 0xea,
    0x4b, 0x46, 0xe5, 0x6e, 0xe2, 0xb0, 0x57, 0x91, 0xe6, 0xa6, 0x1a, 0xb8, 0xb8, 0x63, 0x91, 0xc6,
    0x50, 0xd1, 0xdd, 0xea, 0x4b, 0x4a, 0x18, 0x31, 0xe3, 0x7d, 0xf3, 0x58, 0xa3, 0x69, 0x16, 0x07,
    0x2d, 0x54, 0xd5, 0xb0, 0x8e, 0x7e, 0x23, 0xd8, 0xea, 0xe9, 0xa4, 0x26, 0xad, 0xd7, 0x0d, 0x06,
    0x99, 0x6f, 0xf2, 0xb5, 0xcd, 0xf8, 0xeb, 0xea, 0xf7, 0xc5, 0x45, 0x6e, 0x6e, 0x4a, 0xb4, 0x38,
    0x7a, 0x34, 0x17, 0x34, 0x42, 0x09, 0xac, 0xb2, 0x22, 0x64, 0xfb, 0x49, 0x8b, 0x4e, 0x8f, 0xb5,
    0x25, 0x04, 0xb8, 0xb9, 0x07, 0xbb, 0xf2, 0xe6, 0x30, 0x80, 0xe2, 0xe7, 0x18, 0x31, 0x1c, 0x1d,
    0x59, 0xf2, 0xbe, 0x69, 0xf8, 0xd3, 0xd0, 0x32, 0x5b, 0xeb, 0xdb, 0x62, 0x09, 0xa8, 0x43, 0x3e,
    0x7e, 0xc5, 0xb7, 0xf8, 0x01, 0x63, 0x1d, 0x11, 0xf4, 0xc7, 0xdb, 0x47, 0x8b, 0xa7, 0xbf, 0x0b,
    0x3c, 0xa8, 0x0d, 0x85, 0xf9, 0x77, 0x14, 0x7d, 0x90, 0x44, 0x1a, 0x68, 0x94, 0x08, 0x4e, 0x48,
    0x96, 0x41, 0x62, 0x70, 0x75, 0xb3, 0xd3, 0xc5, 0xc0, 0x8b, 0x62, 0xc6, 0xd9, 0x4e, 0x89, 0x0d,
    0x94, 0xdf, 0x78, 0x6d, 0x9e, 0x74, 0x15, 0x7e, 0x60, 0xc9, 0x0c, 0x0d, 0x1a, 0x35, 0xa4, 0x27,
    0x2b, 0x76, 0x6b, 0x43, 0x67, 0x81, 0xf6, 0xf8, 0x73, 0x39, 0x39, 0x3a, 0xfa, 0x45, 0xa0, 0xbd,
    0x67, 0x4d, 0xb8, 0x99, 0xf5, 0xb6, 0x3a, 0xef, 0x2b, 0xd1, 0x42, 0xc3, 0x1c, 0xa5, 0xd0, 0x6d,
    0xaf, 0x7a, 0xe5, 0x3a, 0x7f, 0x1b, 0x5c, 0x3d, 0x61, 0x67, 0x65, 0xf6, 0x85, 0xcf, 0x6f, 0x1b,
    0x4b, 0x4c, 0xab, 0x42, 0x5e, 0xb7, 0x89, 0xbf, 0xaa, 0x89, 0x19, 0xd1, 0xfd, 0x70, 0xae, 0x76,
    0x5d, 0x04, 0x4d, 0x9e, 0xf7, 0xcc, 0xdd, 0x10, 0x46, 0xcc, 0x26, 0x6e, 0x4f, 0x4a, 0x0d, 0x21,
    0xa3, 0x93, 0xd2, 0x50, 0x97, 0x12, 0xcb, 0x5e, 0xbc, 0x46, 0x04, 0x9c, 0x48, 0x33, 0x1f, 0xf7,
    0x50, 0x89, 0xae, 0x13, 0xe1, 0x32, 0x87, 0x13, 0xac, 0x31, 0xce, 0x0b, 0x4f, 0x6e, 0x55, 0x00,
    0xe2, 0x08, 0x40, 0x37, 0x82, 0xb2, 0x7d, 0x80, 0x5b, 0xd1, 0x26, 0xca, 0x97, 0x7a, 0x27, 0x4d,
    0xc2, 0xaa, 0xb8, 0xc6, 0x43, 0x23, 0x99, 0xcd, 0xe8, 0xf9, 0x37, 0x16, 0x46, 0x44, 0x6a, 0x1f,
    0xb7, 0x7b, 0xc8, 0x64, 0xa6, 0x40, 0x52, 0xf8, 0x7b, 0x9c, 0xc1, 0x90, 0x85, 0x21, 0xb9, 0x49,
    0x51, 0x21, 0x44, 0xb7, 0x77, 0x6f, 0xa2, 0xf2, 0x91, 0xbe, 0x38, 0x59, 0x54, 0xcb, 0x94, 0x1d,
    0x78, 0xd1, 0xc3, 0xf9, 0xea, 0xc5, 0x8b, 0xdc, 0x68, 0xc4, 0xd5, 0x57, 0x6d, 0xe3, 0x7c, 0x0d,
    0xd5, 0x1d, 0x7f, 0x01, 0x80, 0x2d, 0x47, 0x21, 0x06, 0xe2, 0x74, 0xae, 0x45, 0x2d, 0x37, 0xc0,
    0x5b, 0x9d, 0x23, 0x35, 0x61, 0x46, 0x6a, 0x5e, 0xc8, 0xd5, 0x5c, 0x45, 0xa2, 0x23, 0x56, 0x57,
    0x4a, 0x8c, 0x8d, 0x55, 0x33, 0x5d, 0x64, 0xdf, 0x88, 0xa4, 0x07, 0x61, 0xd4, 0x93, 0x9e, 0x0d,
    0xe5, 0x31, 0x8b, 0x03, 0x49, 0x2a, 0x7c, 0x80, 0xcf, 0x5f, 0x9a, 0x7c, 0x29, 0x64, 0x32, 0x16,
    0x50, 0xb5, 0x52, 0x5b, 0xa1, 0xb3, 0x2d, 0xd4, 0x3d, 0x12, 0x4c, 0xf4, 0xb6, 0xad, 0x55, 0x7f,
    0x27, 0x67, 0xf5, 0x07, 0x98, 0x27, 0xd8, 0x4e, 0x25, 0xb1, 0x51, 0x19, 0xdd, 0x36, 0xc7, 0x38,
    0x66, 0xa4, 0xc4, 0x9f, 0x3f, 0x77, 0x25, 0x8f, 0x99, 0x28, 0x91, 0x00, 0x05, 0x16, 0x1c, 0x1f,
    0x1e, 0x66, 0x0c, 0xc4, 0x0f, 0xbb, 0x93, 0x70, 0x9e, 0xfe, 0xc5, 0x95, 0xee, 0x32, 0xad, 0x5e,
    0xf4, 0x24, 0x3c, 0x8a, 0x75, 0x67, 0x11, 0x99, 0xe0, 0x74, 0x8a, 0x0e, 0x4c, 0x2f, 0xb7, 0xd9,
    0xaf, 0x65, 0xe0, 0x62, 0x57, 0xf5, 0xde, 0x9b, 0xf3, 0xb3, 0x52, 0xb4, 0x96, 0x74, 0xb8, 0xe6,
    0x7a, 0x92, 0xc0, 0x90, 0xb1, 0x01, 0x5d, 0xdc, 0x3a, 0x9c, 0x2f, 0x12, 0x4c, 0x76, 0x4a, 0x02,
    0x3b, 0x62, 0xd3, 0x14, 0xb9, 0x42, 0x3e, 0x8e, 0x83, 0x28, 0xc8, 0xdf, 0x13, 0x32, 0x49, 0x87,
    0x71, 0xa6, 0x45, 0xa7, 0xca, 0x7d, 0x6b, 0x87, 0x39, 0xb4, 0xb0, 0x95, 0xf1, 0x60, 0x66, 0x83,
    0xa6, 0xfa, 0x5a, 0xd7, 0xa9, 0x89, 0x42, 0xcb, 0xcb, 0x5e, 0x87, 0xc2, 0xae, 0xb5, 0xd9, 0xf7,
    0x8a, 0x99, 0xea, 0x23, 0xc5, 0x9d, 0x72, 0x67, 0xfc, 0x44, 0x30, 0x85, 0x31, 0x29, 0x65, 0x1b,
    0x34, 0x3e, 0x14, 0xcf, 0x8f, 0x31, 0x0c, 0xb3, 0x82, 0x8b, 0xca, 0xd5, 0x20, 0x67, 0x80, 0x85,
    0x38, 0x58, 0x70, 0x66, 0xbb, 0x79, 0xc8, 0x70, 0x3e, 0xa5, 0xdb, 0x2f, 0x9e, 0x26, 0x1f, 0x1f,
    0x3a, 0xe8, 0x92, 0xfd, 0x56, 0x9c, 0xd3, 0x54, 0xfa, 0xa7, 0xf4, 0x13, 0x35, 0x5a, 0x1d, 0x2b,
    0x56, 0xdc, 0xdf, 0x9b, 0x4b, 0x43, 0xb4, 0x25, 0xfb, 0x7d, 0xdc, 0xa4, 0xf3, 0xb7, 0x48, 0x0c,
    0x3c, 0xc3, 0x40, 0x12, 0x78, 0x85, 0xb6, 0xa2, 0x40, 0x18, 0xb2, 0xb4, 0xa2, 0xad, 0xb3, 0x29,
    0x71, 0x29, 0x01, 0xc3, 0x23, 0x8c, 0xe4, 0x5d, 0xb6, 0xdf, 0x99, 0x80, 0xc4, 0x3f, 0xd0, 0x34,
    0x4f, 0x1d, 0xf1, 0x2c, 0xc7, 0xe8, 0xa4, 0x59, 0x5d, 0x84, 0xfe, 0x75, 0x8f, 0x05, 0xaf, 0x45,
    0xf6, 0xe9, 0x21, 0x27, 0x58, 0x69, 0x2f, 0x21, 0xf6, 0x41, 0x1a, 0xff, 0x4e, 0xe5, 0xb7, 0x06,
    0xd2, 0xf6, 0xd6, 0x62, 0x6b, 0xc0, 0x49, 0x9e, 0x7a, 0xd1, 0x9a, 0x16, 0x7c, 0xca, 0xaf, 0xa1,
    0xd2, 0x8e, 0xd8, 0x05, 0x69, 0xc8, 0x6d, 0x0c, 0x19, 0x8b, 0xaa, 0xcd, 0x80, 0xdf, 0xfb, 0x17,
    0x52, 0xb2, 0x6d, 0x4c, 0x24, 0x48, 0x43, 0x12, 0xc9, 0x78, 0x28, 0xa6, 0x59, 0xed, 0x0d, 0x66,
    0x85, 0xba, 0x28, 0x7e, 0xd9, 0x23, 0xbb, 0x96, 0x74, 0x13, 0x09, 0xde, 0xcf, 0x7b, 0x53, 0x0f,
    0x34, 0xe7, 0x0b, 0x70, 0x52, 0xff, 0x13, 0xe7, 0x22, 0x48, 0x36, 0xf7, 0xa6, 0xb6, 0x6c, 0x48,
    0x52, 0xe3, 0x1a, 0xe8, 0x7c, 0x9c, 0x88, 0xf0, 0x62, 0x7b, 0x24, 0x41, 0x21, 0xb7, 0x8c, 0x68,
    0x47, 0xfd, 0x06, 0x43, 0x52, 0x9e, 0xec, 0x6c, 0x70, 0x57, 0x0b, 0x01, 0x5c, 0xdb, 0x39, 0x6f,
    0x35, 0x49, 0xea, 0xf7, 0xa9, 0x1b, 0x08, 0x65, 0xb6, 0x4e, 0x55, 0x2d, 0x27, 0xd2, 0x31, 0x0a,
    0x45, 0xee, 0xf9, 0x4f, 0x72, 0xe8, 0xf5, 0x8e, 0xe2, 0x4e, 0x33, 0x31, 0x93, 0xcf, 0xe5, 0xaa,
    0x0a, 0xe4, 0xd1, 0xd4, 0x1e, 0xa7, 0x05, 0x20, 0x82, 0xc9, 0xe2, 0xb8, 0x4d, 0x31, 0x0f, 0x79,
    0x9b, 0x56, 0x5a, 0x14, 0xf0, 0xf5, 0x22, 0xa5, 0xbb, 0x21, 0x67, 0xaa, 0xa3, 0xee, 0x60, 0x8b,
    0x32, 0x2e, 0xb9, 0x42, 0x19, 0xa8, 0xb4, 0x6e, 0xf7, 0x6e, 0x86, 0xf3, 0x69, 0x4c, 0x1c, 0x06,
    0x3a, 0x9a, 0x22, 0x79, 0xf9, 0x58, 0x9f, 0xb5, 0x1a, 0xe9, 0x83, 0x77, 0x56, 0xb6, 0xcf, 0x20,
    0x1c, 0xac, 0x68, 0xb2, 0x5c, 0x97, 0xf3, 0x85, 0x21, 0x6a, 0x54, 0x14, 0x0c, 0x4b, 0xd4, 0xcb,
    0xc3, 0x35, 0x23, 0x4f, 0xc6, 0x54, 0x90, 0x5c, 0xc2, 0xbd, 0xaa, 0xc5, 0xf6, 0x8c, 0x38, 0xe9,
    0xa0, 0x69, 0x24, 0x07, 0xfa, 0xa9, 0x2d, 0x5b, 0x76, 0xcb, 0x4d, 0x35, 0xcf, 0xaa, 0xf0, 0x0a,
    0x8d, 0xdf, 0x85, 0x1a, 0x47, 0x3b, 0xe0, 0xdb, 0x43, 0xb0, 0x00, 0x32, 0xbf, 0xc4, 0x83, 0x9f,
    0xc7, 0xbb, 0xfd, 0x86, 0x64, 0x25, 0xc4, 0xae, 0xcb, 0x6a, 0x55, 0xee, 0xf4, 0xb8, 0x04, 0xbe,
    0x12, 0xec, 0xdc, 0x56, 0xd1, 0x56, 0x13, 0xaf, 0x16, 0x8b, 0x50, 0xa7, 0xb3, 0x88, 0xb9, 0xb4,
    0xeb, 0xed, 0x4d, 0x0e, 0xff, 0x6b, 0xd5, 0xf3, 0x08, 0xd6, 0xf0, 0x57, 0x53, 0xa1, 0xc5, 0x04,
    0x5d, 0x8e, 0xd4, 0xef, 0x6e, 0x9a, 0xe2, 0xed, 0x8d, 0xa1, 0x94, 0x57, 0x3d, 0x0c, 0x77, 0xf5,
    0x5a, 0xe6, 0x26, 0xaa, 0x69, 0xb1, 0x5b, 0xd2, 0x88, 0x2f, 0x6b, 0x59, 0x09, 0x2d, 0x7c, 0xb6,
    0x5e, 0x45, 0x7f, 0x84, 0x33, 0x4b, 0x4d, 0xe8, 0x2b, 0x1e, 0x03, 0x23, 0xe3, 0x5a, 0x70, 0xd9,
    0x6b, 0x3f, 0x39, 0xf8, 0x47, 0x61, 0x0d, 0x87, 0x0b, 0x38, 0xee, 0x56, 0xc5, 0xcc, 0xd4, 0x1c,
    0x36, 0x17, 0x4f, 0x44, 0xee, 0x02, 0xe6, 0x1d, 0x04, 0x7d, 0xcf, 0x3d, 0x44, 0xdf, 0xb4, 0xf3,
    0xb7, 0x32, 0xa5, 0x15, 0x6f, 0xcd, 0x8c, 0x4a, 0x3c, 0x93, 0xce, 0x5d, 0x65, 0x96, 0x14, 0x63,
    0x51, 0x05, 0xc1, 0xd1, 0xeb, 0xe7, 0x4a, 0x53, 0x8a, 0xa1, 0xf6, 0xed, 0x00, 0x15, 0x0e, 0x67,
    0x5c, 0x73, 0x93, 0xec, 0xaa, 0x18, 0xcd, 0xff, 0xfe, 0x1c, 0x1a, 0x86, 0x01, 0xbc, 0xad, 0x10,
    0xa7, 0x78, 0xe6, 0x93, 0xea, 0xdd, 0xf8, 0xfe, 0xaa, 0x21, 0x79, 0x5c, 0x86, 0x5b, 0x36, 0x72,
    0x08, 0x06, 0x11, 0xa8, 0xd6, 0x1d, 0x24, 0x37, 0x59, 0xb0, 0xfe, 0x50, 0x56, 0x5a, 0xcb, 0x9a,
    0xd5, 0x77, 0x01, 0x76, 0x30, 0x2b, 0xb9, 0xe7, 0x12, 0x43, 0x2f, 0x41, 0x0c, 0x1c, 0x96, 0x44,
    0x7a, 0x27, 0xaf, 0x85, 0x79, 0x83, 0xaa, 0xaa, 0xe7, 0x2b, 0xf8, 0x64, 0x56, 0xc1, 0x4f, 0x08,
    0x22, 0xa4, 0x0b, 0x1f, 0x4d, 0xd1, 0xf3, 0xff, 0x72, 0x98, 0xd9, 0xb0, 0x66, 0xfe, 0xea, 0x60,
    0xe3, 0x18, 0x34, 0xd6, 0xd9, 0x01, 0x89, 0x88, 0x4b, 0xe1, 0x36, 0x0c, 0xcf, 0x21, 0xa7, 0xaf,
    0x44, 0xf6, 0x66, 0x56, 0xdc, 0xb6, 0xbd, 0x6f, 0xe8, 0xb2, 0xa6, 0x9b, 0x77, 0x55, 0x99, 0xb6,
    0x1b, 0x38, 0x94, 0x40, 0x07, 0x0f, 0xfb, 0x13, 0x3b, 0xcc, 0x16, 0xa5, 0xe6, 0x80, 0x9a, 0x02,
    0x71, 0xab, 0x75, 0x63, 0x90, 0x4d, 0x8a, 0xbc, 0xff, 0xa2, 0x62, 0x8e, 0x43, 0xe7, 0xe3, 0xfe,
    0x02, 0xb2, 0xc1, 0x0a, 0x12, 0x44, 0xea, 0x87, 0xfb, 0x2a, 0x97, 0xa3, 0xcc, 0x2b, 0x13, 0xba,
    0xbc, 0xdf, 0x99, 0x8c, 0x26, 0xf9, 0xcc, 0x7c, 0x2a, 0x0b, 0x51, 0x6c, 0xff, 0x1b, 0x7b, 0xe1,
    0x82, 0x8e, 0xdc, 0xf2, 0xf0, 0xc4, 0x1b, 0xc3, 0xcd, 0xc5, 0xc1, 0x2b, 0xb4, 0xf7, 0xd2, 0x0f,
];

/// Rows 192 to 223 of the generating matrix.
pub const PRECOMPUTED_ROWS_6: [u8; PRECOMPUTED_PART_SIZE] = [
    0x20, 0x85, 0xeb, 0x18, 0x36, 0xac, 0xd0, 0xc1, 0x80, 0x55, 0x86, 0x2e, 0x48, 0xdc, 0x5f, 0x59,
    0x4b, 0x75, 0xdd, 0x74, 0x88, 0x65, 0xf6, 0x84, 0x02, 0xe2, 0xc8, 0x47, 0xb5, 0x0b, 0x83, 0x9d,
    0xf0, 0xfe, 0x2c, 0x9d, 0x06, 0x74, 0x58, 0xfe, 0x14, 0x1a, 0xc9, 0x8a, 0x01, 0x1c, 0xd8, 0x12,
    0xe3, 0xf6, 0x91, 0xaa, 0x5e, 0x14, 0xc1, 0x51, 0xca, 0x06, 0x8b, 0xbb, 0x7c, 0x06, 0x69, 0x1b,
    0x2f, 0xd6, 0x7b, 0xff, 0x11, 0x1d, 0x3c, 0x92, 0xf6, 0x9b, 0x7c, 0x08, 0x04, 0x5a, 0x30, 0x5a,
    0xa1, 0x7e, 0x01, 0x27, 0x15, 0xe7, 0x53, 0x64, 0xed, 0x1a, 0xb7, 0x87, 0xbf, 0x12, 0xae, 0x9d,
    0x9f, 0x66, 0xf0, 0x7e, 0x73, 0x62, 0xd2, 0x0c, 0x0c, 0x55, 0x93, 0xa8, 0x3e, 0xd5, 0x25, 0xb2,
    0x94, 0xe2, 0xc6, 0x32, 0xfa, 0x2b, 0xe4, 0xbc, 0x24, 0x4a, 0x98, 0x7e, 0x53, 0xe9, 0xf9, 0x1f,
    0x4d, 0xa6, 0x34, 0x3d, 0x8d, 0xf5, 0x79, 0xc9, 0xbc, 0x9f, 0xe3, 0xaf, 0x0e, 0x6b, 0x05, 0x22,
    0x85, 0x3e, 0x27, 0xba, 0x27, 0x65, 0x03, 0x7d, 0x6b, 0x76, 0xd7, 0xd3, 0xef, 0xb1, 0xf3, 0x59,
    0xf6, 0x2c, 0x83, 0xdd, 0xaf, 0xed, 0x0e, 0x77, 0x44, 0xd6, 0x43, 0x41, 0x9b, 0xa9, 0x39, 0x8d,
    0x95, 0x3c, 0x12, 0x10, 0x23, 0xc5, 0xfe, 0x4c, 0x73, 0x50, 0x5b, 0xba, 0xeb, 0x1e, 0x70, 0x0a,
    0x7b, 0x2f, 0x19, 0x69, 0x60, 0xf3, 0x02, 0x59, 0x81, 0x0f, 0x72, 0x43, 0x2d, 0xfe, 0xd4, 0x31,
    0xcd, 0xb0, 0x30, 0xc6, 0x52, 0x78, 0x66, 0xba, 0xe7, 0xda, 0xd2, 0xaa, 0xf0, 0x86, 0x0f, 0x87,
    0xa8, 0x8c, 0xbd, 0xe7, 0x8a, 0xa3, 0xd8, 0x4b, 0xa7, 0x3d, 0xfd, 0xf0, 0x51, 0xc9, 0x18, 0xe7,
    0x20, 0xdd, 0x04, 0xd4, 0xb2, 0x73, 0xb9, 0x67, 0x8d, 0x37, 0x82, 0x4a, 0x03, 0x73, 0x98, 0x01,
    0x0e, 0x18, 0x15, 0x16, 0xa8, 0xd5, 0xce, 0x83, 0xb4, 0xba, 0x63, 0x9d, 0x08, 0xff, 0x3d, 0xb6,
    0x2f, 0xb1, 0x15, 0xe7, 0x7f, 0xdc, 0xb8, 0x73, 0xd8, 0x14, 0x62, 0xdb, 0xb6, 0xdb, 0x9e, 0xc1,
    0x8f, 0x7f, 0x61, 0x80, 0x76, 0xfd, 0x08, 0x15, 0x1a, 0x43, 0xa5, 0xb1, 0xb7, 0x6d, 0xce, 0x9f,
    0x38, 0x6f, 0x2b, 0xc9, 0x6e, 0x90, 0xd6, 0xdd, 0xb5, 0x71, 0xb7, 0x79, 0x79, 0xf5, 0x39, 0x0a,
    0xa9, 0x15, 0x9e, 0xd0, 0x99, 0x0c, 0x03, 0x7c, 0x32, 0x8d, 0x16, 0x81, 0x87, 0x40, 0xda, 0x33,
    0x88, 0x44, 0x2f, 0x2d, 0xec, 0x67, 0x6b, 0xa1, 0x5d, 0x2d, 0xf4, 0xcc, 0xfa, 0xfc, 0xbc, 0xdd,
    0x89, 0x47, 0x2f, 0x8c, 0x62, 0x87, 0x33, 0xd1, 0xf9, 0x82, 0x39, 0x5f, 0x01, 0x74, 0x63, 0xfd,
    0x0e, 0xb0, 0x17, 0x8f, 0x69, 0x5b, 0xcf, 0x6a, 0xd9, 0x8c, 0xf2, 0xec, 0x67, 0xfa, 0xf3, 0x15,
    0xef, 0xc3, 0xd4, 0xd8, 0xdd, 0xc5, 0xa1, 0xea, 0x02, 0x9d, 0xfa, 0x46, 0xa2, 0x12, 0x89, 0x00,
    0xb2, 0xfe, 0x25, 0xfd, 0x88, 0xab, 0x8e, 0x9e, 0x13, 0xb2, 0xbf, 0x55, 0xfa, 0x6f, 0x8a, 0xb2,
    0xae, 0x3c, 0xf1, 0xdf, 0xa7, 0xee, 0x3e, 0xce, 0xa2, 0x8f, 0x84, 0x9b, 0xcb, 0x94, 0x9c, 0x8f,
    0x47, 0x26, 0xb6, 0x12, 0x7d, 0x94, 0xbc, 0x88, 0x2e, 0x85, 0x7b, 0x44, 0xf3, 0x9c, 0x7b, 0x10,
    0xd7, 0x80, 0x0d, 0x73, 0xa1, 0x4b, 0x24, 0x70, 0x85, 0x02, 0x88, 0x33, 0xde, 0xad, 0x2b, 0x1a,
    0x2e, 0x55, 0x2c, 0x72, 0xce, 0x30, 0x67, 0x7f, 0x22, 0x32, 0xa5, 0xb7, 0x4e, 0x6f, 0x1f, 0x45,
    0x81, 0x6c, 0x41, 0xc4, 0x63, 0x9f, 0x0c, 0xa5, 0x1e, 0x1d, 0x5f, 0x4a, 0x48, 0x6a, 0x89, 0xf5,
    0x31, 0xe0, 0x87, 0xc8, 0xde, 0x02, 0x08, 0x7f, 0x8c, 0x6a, 0x64, 0x7a, 0x71, 0xe7, 0x88, 0x14,
    0x1e, 0x41, 0xa1, 0x07, 0x22, 0x57, 0x0d, 0xd2, 0x55, 0xbd, 0x52, 0x1d, 0xcd, 0xea, 0xd9, 0x69,
    0x3a, 0x9a, 0xf3, 0x47, 0x73, 0x0b, 0x82, 0x7e, 0xe9, 0x7a, 0x52, 0x49, 0x97, 0x97, 0x82, 0x26,
    0xd2, 0x6d, 0xa6, 0x4a, 0xf6, 0x87, 0x41, 0x0a, 0x8d, 0xe1, 0xd0, 0x2e, 0xa0, 0x84, 0x8b, 0xf5,
    0x53, 0x94, 0x5d, 0x31, 0xe8, 0x7a, 0xf1, 0x4c, 0x47, 0x5e, 0x6d, 0xc4, 0xbe, 0xae, 0x5d, 0x1f,
    0x3c, 0xce, 0xfe, 0x4c, 0xbe, 0xec, 0x43, 0x79, 0xcc, 0x7a, 0xfb, 0xef, 0x6e, 0x75, 0x7e, 0x3b,
    0xfc, 0xd8, 0x5b, 0x28, 0x7c, 0xce, 0x6e, 0x99, 0x00, 0x8e, 0xf4, 0x7b, 0x14, 0x03, 0x3c, 0x7d,
    0xb3, 0x85, 0x6c, 0x59, 0x69, 0x81, 0x54, 0x03, 0xc6, 0xb7, 0x86, 0x76, 0xb8, 0x87, 0xe1, 0x67,
    0x84, 0x82, 0xae, 0x92, 0xc9, 0x34, 0xea, 0xd3, 0x06, 0x5f, 0x59, 0x1d, 0x35, 0x1b, 0x8a, 0x1c,
    0x8b, 0xbe, 0xf5, 0xd1, 0xd7, 0x7d, 0x55, 0x11, 0x7a, 0x9d, 0xf8, 0x90, 0xec, 0x41, 0xf4, 0x17,
    0x82, 0x16, 0x62, 0x38, 0x33, 0x7e, 0x38, 0xbb, 0x63, 0x87, 0xaf, 0x56, 0xc7, 0xd5, 0xe5, 0x45,
    0x07, 0x53, 0xd4, 0x5e, 0xe3, 0xd1, 0x00, 0xfb, 0x60, 0x2c, 0xde, 0xdd, 0xa6, 0x6b, 0xac, 0x81,
    0xfd, 0xdf, 0xb9, 0x68, 0x3f, 0xbf, 0x8c, 0xce, 0xcd, 0x83, 0xbf, 0xb5, 0xea, 0xeb, 0x94, 0x12,
    0x3e, 0xbb, 0x09, 0x5f, 0x70, 0x86, 0x10, 0xb6, 0xfb, 0xf0, 0xe4, 0x1f, 0x73, 0xff, 0x49, 0xc6,
    0xfb, 0x1d, 0x6a, 0x06, 0xc9, 0x76, 0xcc, 0xb9, 0xa4, 0x13, 0x80, 0x9d, 0xa2, 0x89, 0xb0, 0x42,
    0x11, 0x39, 0xdb, 0x99, 0x03, 0x79, 0xdf, 0x09, 0xf1, 0xc8, 0x87, 0x9a, 0xd7, 0x0e, 0x43, 0x71,
    0x3e, 0xfd, 0x0e, 0x37, 0x3a, 0x0d, 0x38, 0x76, 0xa9, 0x61, 0x2c, 0x76, 0x57, 0xfd, 0x33, 0x12,
    0x2d, 0x75, 0x67, 0x99, 0x56, 0xeb, 0xf1, 0x20, 0x1c, 0x90, 0x24, 0xeb, 0x72, 0x85, 0xf4, 0x6a,
    0xed, 0x05, 0x58, 0x75, 0xf1, 0xdf, 0x71, 0x3d, 0xa9, 0xd0, 0x41, 0x50, 0xd0, 0xd2, 0xee, 0x54,
    0xf7, 0x27, 0xc3, 0x8c, 0x99, 0xfa, 0x65, 0xae, 0x8b, 0xdd, 0xef, 0x34, 0xc2, 0xc7, 0x94, 0x57,
    0x0f, 0xc1, 0xc6, 0x1e, 0x27, 0xb5, 0xcf, 0xff, 0x58, 0x91, 0x7f, 0xa6, 0x8f, 0xd0, 0x42, 0x1f,
    0xb9, 0xf4, 0xfb, 0xfd, 0x3b, 0x1f, 0x36, 0x25, 0x1e, 0x1c, 0xe9, 0xa5, 0x8f, 0x3b, 0x6b, 0xfd,
    0x65, 0xfa, 0x84, 0xeb, 0x34, 0x91, 0xe5, 0x65, 0xdc, 0x07, 0xc6, 0x85, 0xa9, 0xfe, 0xdf, 0xa7,
    0xb6, 0xd9, 0x8e, 0x58, 0xf0, 0xc9, 0x8c, 0x12, 0x12, 0xbf, 0xa7, 0xf0, 0xbd, 0x32, 0x80, 0xe3,
    0xb9, 0x44, 0x42, 0x63, 0xdb, 0x44, 0xc8, 0x09, 0xc6, 0x7d, 0xf1, 0xf6, 0x75, 0xb4, 0x92, 0x0c,
    0x8c, 0x75, 0xca, 0x39, 0xa4, 0xec, 0x4e, 0x98, 0x3a, 0x57, 0xda, 0x41, 0x24, 0xd4, 0x3c, 0x20,
    0xb4, 0x17, 0x0e, 0x28, 0x10, 0x76, 0x26, 0x4b, 0xc0, 0x34, 0x9b, 0x7a, 0x56, 0xf8, 0xd1, 0xb9,
    0xd5, 0x92, 0xde, 0x75, 0x93, 0xdf, 0xa3, 0x35, 0x87, 0x65, 0xfe, 0x81, 0x26, 0x8e, 0x13, 0x73,
    0x5b, 0x85, 0x22, 0x5d, 0x9c, 0x4e, 0x2a, 0xef, 0xf8, 0x32, 0x02, 0x23, 0x07, 0xc8, 0x7c, 0x0f,
    0xb7, 0x00, 0x75, 0x25, 0xfd, 0x73, 0x29, 0x7a, 0x5e, 0x64, 0xbe, 0xc8, 0xe0, 0x11, 0x99, 0x86,
    0x23, 0x3d, 0x8e, 0xb9, 0x18, 0xc1, 0x1d, 0x62, 0x50, 0x7f, 0x53, 0x14, 0xf0, 0x5c, 0x6d, 0x0b,
    0x77, 0x01, 0x54, 0xd4, 0x1a, 0x21, 0x6c, 0x68, 0x76, 0xf7, 0x48, 0xa6, 0x8e, 0x36, 0x9f, 0xd8,
    0x11, 0xac, 0x6e, 0x85, 0xbe, 0x69, 0x8d, 0x07, 0x81, 0x0e, 0x9e, 0xc6, 0x97, 0x0f, 0xb6, 0x19,
    0xfa, 0xa3, 0x60, 0x56, 0x1e, 0x69, 0x4d, 0xda, 0x8e, 0x2f, 0x30, 0x27, 0x0b, 0x74, 0xe4, 0xc7,
    0x33, 0x52, 0x80, 0x1b, 0x19, 0x73, 0xf0, 0xe4, 0x67, 0xbe, 0x1f, 0x5c, 0xf7, 0x20, 0xc8, 0xbb,
    0x40, 0x50, 0x96, 0x39, 0xe1, 0xa2, 0xec, 0x39, 0xde, 0x34, 0xd8, 0x88, 0x7a, 0x8e, 0x8c, 0x1f,
    0x92, 0x9d, 0x61, 0xf8, 0x05, 0x27, 0x18, 0x1d, 0xcc, 0x9c, 0x93, 0xe8, 0x10, 0x5a, 0xd6, 0x1f,
    0xd2, 0x4a, 0xcb, 0x9c, 0x44, 0x2a, 0xc7, 0xf4, 0xdb, 0x0a, 0x33, 0x57, 0x9c, 0xb8, 0x22, 0xef,
    0xc2, 0x7b, 0xe4, 0x57, 0xb4, 0x34, 0x4b, 0xf4, 0xf0, 0x56, 0xbe, 0xdc, 0xf8, 0x40, 0xdc, 0x1d,
    0x63, 0x1f, 0xde, 0x93, 0xe1, 0x7a, 0x13, 0xb1, 0x72, 0xdd, 0x7c, 0x0e, 0x71, 0xb9, 0x40, 0xf5,
    0xdf, 0xa6, 0x08, 0xc9, 0x33, 0xb0, 0xf8, 0x0a, 0xcd, 0xba, 0xf5, 0xb7, 0x1c, 0xcf, 0x73, 0x00,
    0x57, 0xe0, 0x69, 0xdc, 0x16, 0xac, 0xac, 0x1e, 0xe8, 0x5d, 0x5f, 0x7d, 0x4c, 0xf1, 0x91, 0xb1,
    0xf9, 0x0e, 0xec, 0x92, 0x90, 0xa9, 0xa1, 0x3f, 0x70, 0xed, 0x8c, 0x86, 0x2a, 0xbf, 0xfd, 0x8e,
    0x43, 0x99, 0x58, 0xb7, 0xcc, 0x01, 0xe8, 0xc8, 0xd7, 0x87, 0xf3, 0x6d, 0x8c, 0x9a, 0x2d, 0xfd,
    0xb5, 0xa6, 0x88, 0x40, 0x42, 0x66, 0x08, 0x64, 0x6b, 0x9a, 0x0b, 0xb0, 0x46, 0x67, 0xa5, 0x09,
    0xf5, 0x05, 0x25, 0x26, 0x49, 0xe9, 0x61, 0xf5, 0xaa, 0x2f, 0xdb, 0xb3, 0x42, 0x7e, 0x54, 0xaa,
    0x7e, 0xe9, 0x87, 0x90, 0x8d, 0xf7, 0xb6, 0x16, 0xc6, 0x40, 0x37, 0xe3, 0x48, 0x1a, 0x58, 0x89,
    0xa9, 0x70, 0xd6, 0x40, 0x26, 0xce, 0x04, 0xeb, 0x2d, 0xad, 0xa4, 0xe1, 0xce, 0xb5, 0xd1, 0x61,
    0x56, 0x66, 0xd2, 0x62, 0xaa, 0x4d, 0x51, 0xc4, 0x19, 0x30, 0xad, 0xbf, 0x15, 0x85, 0xaf, 0x01,
    0x5b, 0x81, 0x0b, 0xd7, 0x86, 0xd3, 0x66, 0x92, 0x01, 0xe1, 0x98, 0x37, 0xb9, 0x3d, 0xd5, 0xaf,
    0x94, 0x0e, 0x68, 0x6c, 0x11, 0xa8, 0x27, 0x93, 0xc8, 0xda, 0x2b, 0x89, 0xb8, 0x5f, 0x4b, 0x64,
    0xb5, 0xcf, 0xbf, 0x03, 0x2d, 0xff, 0xe4, 0x27, 0x8f, 0x3d, 0x2f, 0x6f, 0xa1, 0x6b, 0x18, 0x11,
    0x04, 0xf8, 0xde, 0xca, 0x84, 0x0c, 0x30, 0xa2, 0x51, 0x5c, 0xd7, 0x62, 0x58, 0x5b, 0x35, 0x0e,
    0xae, 0x28, 0x41, 0xaf, 0xf5, 0x92, 0x67, 0x43, 0xb4, 0x9e, 0x84, 0xff, 0xda, 0xc8, 0xf7, 0x47,
    0x78, 0xfc, 0x5e, 0xfc, 0xa4, 0x36, 0x85, 0x7c, 0x89, 0xe2, 0x5c, 0x4f, 0x9a, 0xda, 0x17, 0xf6,
    0x07, 0xd0, 0x73, 0x6a, 0xf9, 0x26, 0x90, 0x52, 0x67, 0x5b, 0xeb, 0x96, 0x0f, 0xee, 0xc9, 0xa0,
    0xe2, 0x2a, 0xf0, 0xca, 0xee, 0x14, 0xd6, 0xe3, 0x55, 0x82, 0x8b, 0xca, 0x3f, 0xea, 0xdb, 0x17,
    0x38, 0xdf, 0xa8, 0xa8, 0x0d, 0xe9, 0x1a, 0x7a, 0x29, 0x8a, 0xd2, 0x97, 0x4c, 0x54, 0xec, 0x11,
    0x2b, 0x70, 0xf4, 0x89, 0x6f, 0xfb, 0x80, 0xe5, 0xd6, 0x05, 0xe2, 0x0a, 0xed, 0xbd, 0x7b, 0x4a,
    0x3e, 0xdb, 0x65, 0xc4, 0xdb, 0x43, 0x24, 0x21, 0x2b, 0xdc, 0xca, 0xc2, 0x5b, 0xcc, 0x98, 0x3f,
    0x22, 0x66, 0xa9, 0xe5, 0xc2, 0x7b, 0xcb, 0xca, 0x0f, 0xc3, 0xf1, 0x7a, 0x23, 0xc4, 0xd7, 0x01,
    0xae, 0x3d, 0xe0, 0x61, 0xec, 0xc4, 0x3b, 0x84, 0xe1, 0xff, 0xd2, 0x74, 0xe9, 0x85, 0xec, 0x56,
    0xb1, 0x10, 0x5b, 0x31, 0x68, 0x2f, 0xdc, 0x12, 0x45, 0xbb, 0xd0, 0xde, 0xbf, 0xa2, 0x5c, 0xfa,
    0xda, 0x72, 0x42, 0xb9, 0x85, 0x2d, 0xd9, 0x05, 0xbf, 0xf9, 0x5f, 0x92, 0x4d, 0xb2, 0x57, 0x96,
    0xf3, 0x08, 0xf8, 0x86, 0x36, 0x67, 0x97, 0xf4, 0x26, 0xb5, 0x8a, 0xb5, 0xf0, 0x3a, 0xfa, 0x0b,
    0xcd, 0x43, 0xa9, 0x82, 0x36, 0xed, 0x1e, 0x0f, 0x1c, 0x8b, 0x48, 0x7b, 0x4e, 0x24, 0x4f, 0xe1,
    0xbd, 0x5e, 0xc9, 0x15, 0xae, 0x4d, 0xb9, 0xa2, 0x10, 0xdd, 0xd7, 0x7f, 0xe4, 0x67, 0x53, 0x00,
    0x59, 0x49, 0x08, 0xf1, 0xab, 0x43, 0xcd, 0xfd, 0x88, 0xb8, 0x0c, 0x1c, 0x25, 0xa8, 0xe2, 0x09,
    0x73, 0x34, 0x60, 0xfc, 0xf6, 0x72, 0x43, 0x8a, 0x70, 0x3f, 0x88, 0x22, 0xa0, 0xe8, 0x7f, 0x10,
    0xc7, 0x6f, 0xb1, 0xdc, 0xcf, 0xe5, 0x71, 0x70, 0x53, 0xc2, 0x6f, 0x2d, 0xad, 0xbf, 0x74, 0x6f,
    0xb9, 0xa8, 0x33, 0xe9, 0x99, 0xf5, 0xbe, 0xf9, 0xd3, 0x28, 0x3f, 0xc6, 0x12, 0x9e, 0x72, 0x6c,
    0xfd, 0xad, 0x41, 0x65, 0x30, 0xad, 0x63, 0xfc, 0x6e, 0x0c, 0x65, 0x00, 0x9e, 0xa7, 0xe8, 0x07,
    0x26, 0x83, 0xaf, 0x6e, 0x81, 0x09, 0x00, 0xeb, 0x54, 0x4a, 0x59, 0x49, 0xaf, 0x96, 0x5c, 0x01,
    0x11, 0xe0, 0x93, 0xf0, 0xeb, 0xe6, 0xc0, 0xe0, 0xf3, 0xe9, 0x95, 0x29, 0xe0, 0x1d, 0xf9, 0x2e,
    0x44, 0x52, 0x6e, 0x57, 0x5c, 0xa8, 0x30, 0xef, 0x59, 0xd7, 0xf2, 0x7f, 0xc6, 0xfe, 0x77, 0xd3,
    0x05, 0xd4, 0xc5, 0xf9, 0x8c, 0x96, 0xc1, 0xc0, 0x5d, 0x8d, 0x00, 0xd6, 0x1a, 0xe1, 0x50, 0xbe,
    0xc6, 0x6e, 0xec, 0xfe, 0xfe, 0xae, 0x89, 0x25, 0xf1, 0xa2, 0x03, 0xf9, 0xdf, 0xe4, 0xba, 0x12,
    0x85, 0xcc, 0x09, 0x01, 0x70, 0x6a, 0x05, 0x7e, 0x17, 0x55, 0x51, 0xbc, 0xd4, 0x55, 0x63, 0x2b,
    0xde, 0x4c, 0x68, 0xb5, 0x46, 0x12, 0xa2, 0x7a, 0x29, 0x4e, 0x92, 0xcb, 0x10, 0x36, 0xf7, 0x4a,
    0xf3, 0x53, 0xf6, 0xc9, 0x8b, 0x11, 0x91, 0x94, 0xd3, 0x21, 0xea, 0x33, 0x1a, 0x3d, 0x23, 0x9c,
    0xf8, 0x40, 0x98, 0x6d, 0xdd, 0xe1, 0x0e, 0x95, 0x42, 0xf0, 0x08, 0xee, 0x4a, 0x6e, 0xf5, 0x1a,
    0x4c, 0x36, 0x09, 0xf2, 0x6c, 0x8d, 0x55, 0x2f, 0xbd, 0x0f, 0x29, 0x26, 0x4e, 0x3e, 0x6f, 0x44,
    0xcb, 0x00, 0x8a, 0xa9, 0xbb, 0xb3, 0x89, 0x65, 0x3b, 0x81, 0xf6, 0x06, 0xfd, 0x6f, 0x40, 0x3c,
    0x6b, 0x5b, 0x33, 0xc7, 0x10, 0xc1, 0x65, 0x7b, 0x85, 0x53, 0xc9, 0x49, 0x08, 0x43, 0x65, 0x6d,
    0xef, 0x1a, 0x99, 0x09, 0x73, 0x9b, 0x82, 0xe9, 0xe4, 0xf9, 0x84, 0x7b, 0x20, 0x04, 0xdf, 0x1d,
    0xd8, 0x96, 0x83, 0xe0, 0x17, 0x79, 0x21, 0x75, 0x82, 0x06, 0x5d, 0x81, 0x12, 0x21, 0xdb, 0xd7,
    0x9b, 0x87, 0x31, 0x73, 0x1e, 0x95, 0xe8, 0x3d, 0xe6, 0xe6, 0xc6, 0x54, 0xe9, 0xe8, 0xfe, 0x06,
    0x10, 0x5b, 0x06, 0xdd, 0xa9, 0xd9, 0xb4, 0xdd, 0x42, 0x3f, 0x03, 0x7a, 0x38, 0x97, 0x9e, 0x67,
    0x0f, 0x32, 0xff, 0xda, 0x7b, 0x9a, 0xd2, 0x33, 0x02, 0xa4, 0xf6, 0xd2, 0xa7, 0x91, 0xec, 0x12,
    0xad, 0xba, 0x6e, 0xf4, 0xaa, 0xd4, 0x79, 0x34, 0x71, 0xed, 0xfc, 0xce, 0x6d, 0x35, 0xee, 0x06,
    0xef, 0x7e, 0xbe, 0xc7, 0xfb, 0xaa, 0x7d, 0xec, 0x5f, 0xa5, 0x01, 0x4b, 0xa3, 0x1c, 0xbf, 0xc2,
    0xac, 0x3b, 0x21, 0xf6, 0x83, 0x21, 0x6d, 0x60, 0xca, 0xc4, 0x98, 0xde, 0x5d, 0x23, 0x40, 0x04,
    0xde, 0x3e, 0xcf, 0x3c, 0x7c, 0xd3, 0x15, 0x6f, 0xba, 0x06, 0x1b, 0xba, 0x2d, 0xf1, 0x45, 0x09,
    0x4d, 0x4f, 0x98, 0xa4, 0x6b, 0xf6, 0x38, 0x23, 0x15, 0x4b, 0x09, 0x11, 0x05, 0x0f, 0xe4, 0x44,
    0x23, 0xdb, 0x07, 0x55, 0xad, 0x4a, 0xbe, 0xfd, 0x50, 0x06, 0x81, 0xe1, 0x53, 0x49, 0x91, 0x67,
    0xaa, 0x4a, 0x13, 0x91, 0xff, 0xe8, 0x36, 0x2b, 0xfd, 0xa8, 0x62, 0xd5, 0xf6, 0x36, 0xc1, 0x3d,
    0xf8, 0x38, 0x4c, 0xb9, 0x5e, 0x0a, 0xdd, 0x41, 0xef, 0x91, 0xcd, 0xa2, 0x64, 0x57, 0x6f, 0x0e,
];

/// Rows 224 to 255 of the generating matrix.
pub const PRECOMPUTED_ROWS_7: [u8; PRECOMPUTED_PART_SIZE] = [
    0xbf, 0x4d, 0x8a, 0x0c, 0x73, 0x5e, 0x31, 0xa8, 0x96, 0xee, 0x44, 0xdd, 0x40, 0x3c, 0x27, 0x0c,
    0x73, 0x1a, 0x11, 0xd2, 0x59, 0x94, 0x3c, 0xa8, 0x65, 0xf9, 0x9c, 0xe8, 0x1e, 0x7b, 0x6f, 0xc3,
    0x76, 0xc8, 0xce, 0xf1, 0x38, 0xa1, 0x10, 0x01, 0x82, 0x60, 0x28, 0x8c, 0x3c, 0xc9, 0x1d, 0x47,
    0xf3, 0xff, 0x40, 0x15, 0x6c, 0x32, 0x5c, 0xbf, 0xdd, 0xf0, 0xaf, 0x26, 0x34, 0xcc, 0xfa, 0x14,
    0x6d, 0x3a, 0x50, 0x55, 0xf7, 0x75, 0x04, 0xc8, 0x02, 0xd9, 0xf8, 0xfc, 0xc5, 0xa0, 0xe1, 0xf2,
    0x8d, 0x9b, 0xa9, 0x37, 0xc4, 0xfb, 0x27, 0x92, 0xfe, 0x71, 0x13, 0x9f, 0x6d, 0x92, 0xef, 0x87,
    0x05, 0xec, 0xc7, 0x4a, 0x6c, 0xd4, 0xfa, 0x44, 0x4e, 0x56, 0x27, 0x3d, 0xa2, 0x09, 0xc3, 0xa0,
    0x4a, 0x2c, 0xd6, 0x38, 0x6f, 0xff, 0xc4, 0xeb, 0xcb, 0xe1, 0x8e, 0xa6, 0x71, 0x2f, 0x75, 0x14,
    0x17, 0xd5, 0x09, 0x73, 0x72, 0x69, 0x65, 0x78, 0x56, 0xf6, 0x3c, 0x5d, 0x94, 0x04, 0x52, 0xbf,
    0xd6, 0x9b, 0xa3, 0x75, 0xca, 0x54, 0x2f, 0x33, 0xfe, 0xd8, 0x1a, 0x0b, 0xd0, 0xf2, 0x3f, 0xe6,
    0x7c, 0xbe, 0x88, 0xa2, 0x2a, 0x42, 0x51, 0xd1, 0x6b, 0xfe, 0x73, 0x3a, 0x4d, 0x73, 0x1a, 0x88,
    0x17, 0x03, 0xc1, 0x89, 0x54, 0xa4, 0x9c, 0x3b, 0xeb, 0xd6, 0xda, 0xc9, 0x2b, 0xa6, 0x39, 0x07,
    0x25, 0x70, 0x4b, 0xd7, 0xeb, 0x22, 0x46, 0x3b, 0xa8, 0xa0, 0x54, 0x05, 0x7e, 0xa3, 0x9d, 0xae,
    0x07, 0x2a, 0x45, 0x7b, 0x5a, 0x10, 0xc5, 0x73, 0xbd, 0xb5, 0x24, 0xba, 0x49, 0x99, 0xe3, 0x52,
    0x28, 0x6e, 0xbc, 0xb5, 0xde, 0x8e, 0xff, 0x04, 0x79, 0xa6, 0x6c, 0x10, 0xec, 0x5e, 0x03, 0x0f,
    0x3f, 0xa6, 0x65, 0xfe, 0x1f, 0x6f, 0x55, 0x06, 0x44, 0x36, 0xa0, 0x90, 0x1b, 0x3b, 0x23, 0x0e,
    0xd4, 0xb3, 0x9d, 0xc1, 0x1a, 0x44, 0xdc, 0xac, 0xcc, 0x82, 0x80, 0x88, 0x1a, 0x7e, 0x02, 0xf9,
    0xf3, 0x65, 0x4d, 0xf8, 0x2c, 0xb4, 0x61, 0xec, 0xa3, 0xe9, 0xdb, 0x95, 0x43, 0x65, 0xf8, 0xd8,
    0xba, 0xb7, 0xac, 0x3c, 0xe3, 0xdb, 0x82, 0x26, 0x3a, 0x44, 0x07, 0xc3, 0xe5, 0x1f, 0xeb, 0xea,
    0x1f, 0x02, 0x66, 0x8d, 0x24, 0x85, 0xb8, 0x6b, 0x0a, 0x48, 0x13, 0x92, 0xc7, 0x2b, 0xab, 0x01,
    0xe6, 0xbe, 0xfe, 0x47, 0xd8, 0x1d, 0x5f, 0x96, 0x0e, 0x77, 0xa6, 0x08, 0xc3, 0x2b, 0x69, 0xd0,
    0x66, 0x2e, 0x8d, 0xa3, 0x56, 0xce, 0x03, 0xb3, 0x02, 0xca, 0xcf, 0x3b, 0x6e, 0xcd, 0x6c, 0xd8,
    0x66, 0x1b, 0x4f, 0x00, 0x0e, 0xfd, 0xb1, 0xb4, 0xe5, 0x13, 0x62, 0xe3, 0x11, 0xb1, 0xcc, 0xb5,
    0xdf, 0x5b, 0x53, 0x8a, 0xe1, 0xea, 0x21, 0x56, 0x26, 0x8a, 0x59, 0xf2, 0xe0, 0x7f, 0x06, 0x06,
    0x73, 0x6f, 0x18, 0x03, 0xc4, 0xff, 0x09, 0x78, 0x30, 0xc9, 0x5a, 0x1d, 0x6d, 0x15, 0xcb, 0xed,
    0x8d, 0x96, 0x37, 0x23, 0xb3, 0xdc, 0x05, 0x9f, 0x57, 0x69, 0xbd, 0x5f, 0x5c, 0x69, 0xe0, 0x61,
    0x73, 0xb0, 0x51, 0x3e, 0x4e, 0x99, 0x85, 0x9c, 0xef, 0xe9, 0xf2, 0x58, 0x99, 0x54, 0x02, 0x7e,
    0x05, 0x49, 0x63, 0xce, 0x7c, 0xff, 0xed, 0x0c, 0x42, 0xb9, 0x20, 0x0c, 0x6d, 0x07, 0xe7, 0x02,
    0x41, 0xaa, 0x41, 0x9b, 0x3c, 0x9c, 0x08, 0x70, 0x6e, 0xdd, 0xc6, 0x37, 0xec, 0xca, 0x80, 0x96,
    0x86, 0x93, 0x36, 0xed, 0x01, 0x24, 0x20, 0x93, 0xdd, 0x74, 0xe1, 0xae, 0x11, 0x7d, 0x0d, 0xe5,
    0x00, 0x73, 0x11, 0x8c, 0x00, 0xd7, 0x5f, 0xec, 0xd7, 0x28, 0x52, 0xfd, 0xbc, 0xb9, 0xc8, 0x32,
    0x23, 0xbe, 0xfc, 0x81, 0xd0, 0x7a, 0x1c, 0x83, 0xe5, 0x12, 0x07, 0x73, 0x3e, 0x0e, 0xf0, 0x0c,
    0x09, 0x10, 0xbe, 0x8a, 0xe5, 0x83, 0xd4, 0x16, 0xe9, 0x18, 0x96, 0x78, 0x71, 0x6b, 0x6a, 0xa7,
    0xc9, 0xc9, 0x06, 0xae, 0x40, 0xa1, 0x91, 0x44, 0xef, 0x7c, 0xaa, 0x6e, 0xea, 0x99, 0x31, 0x3d,
    0xa6, 0x95, 0x66, 0xd5, 0x0e, 0x18, 0xca, 0x18, 0xbe, 0x6b, 0xa8, 0xc3, 0xe9, 0xc1, 0x6b, 0x6a,
    0x34, 0x18, 0xc8, 0x17, 0x16, 0x53, 0x04, 0xed, 0x5b, 0xa9, 0xab, 0x66, 0xb2, 0x4b, 0xe7, 0x08,
    0x44, 0x4d, 0xa8, 0xc0, 0x6c, 0x5c, 0xf5, 0xc0, 0x63, 0xaa, 0xba, 0xf7, 0x15, 0x8f, 0xf1, 0xda,
    0x47, 0xa3, 0x52, 0xbb, 0xc2, 0x03, 0xf6, 0x85, 0x86, 0xde, 0x60, 0x98, 0x18, 0xea, 0x29, 0x7a,
    0x01, 0x3a, 0xd2, 0x2a, 0x44, 0xf9, 0x74, 0x13, 0x22, 0xf0, 0x19, 0xed, 0xc8, 0xd9, 0x32, 0x75,
    0x55, 0x53, 0x28, 0x44, 0x3f, 0x1c, 0xd1, 0x3a, 0x67, 0x18, 0x43, 0x36, 0xe8, 0x2c, 0x3e, 0x12,
    0x58, 0x9f, 0xd7, 0xc8, 0x8d, 0x2a, 0x84, 0x1f, 0xe6, 0xba, 0x2a, 0xb6, 0x7c, 0xf4, 0x09, 0xc9,
    0x1b, 0x90, 0x2e, 0xf5, 0x68, 0x59, 0xa5, 0x44, 0x80, 0xd2, 0xb6, 0x59, 0x30, 0xa4, 0x71, 0x88,
    0xd4, 0x9d, 0xf7, 0x88, 0x5b, 0x12, 0x0a, 0x7a, 0x87, 0x24, 0xf8, 0x00, 0xc2, 0x08, 0x23, 0x29,
    0x66, 0x0f, 0xd6, 0xea, 0x83, 0xcd, 0x01, 0xb7, 0x77, 0xd0, 0x05, 0xb5, 0xb9, 0xf4, 0xd5, 0x0c,
    0x92, 0x93, 0x23, 0x7a, 0x80, 0x34, 0x14, 0x28, 0x16, 0x77, 0x57, 0x81, 0x68, 0x55, 0x88, 0xf9,
    0x5c, 0x1a, 0xde, 0x5a, 0xad, 0xf2, 0x8b, 0x83, 0x92, 0x2d, 0xed, 0x61, 0xc6, 0x6d, 0x82, 0xee,
    0x68, 0x57, 0x60, 0x3f, 0x19, 0xf1, 0x77, 0x0b, 0xa6, 0x06, 0x20, 0xb0, 0x60, 0xf0, 0x49, 0x73,
    0x67, 0x2a, 0xa7, 0x3b, 0xf7, 0x89, 0x1f, 0x0b, 0x81, 0x36, 0xb7, 0x68, 0xaa, 0x69, 0xf7, 0x11,
    0x2f, 0x22, 0x87, 0x6f, 0xf5, 0x61, 0x46, 0x7b, 0xf6, 0x22, 0x7c, 0xbc, 0x73, 0x90, 0x9e, 0x6a,
    0x51, 0x2b, 0x60, 0xff, 0xd5, 0xb6, 0xcb, 0xb7, 0xdc, 0x45, 0xba, 0xe9, 0x05, 0x5c, 0x91, 0x0b,
    0x8b, 0x62, 0x08, 0x35, 0xde, 0x8f, 0x05, 0x3e, 0xf8, 0xbf, 0xb6, 0x0c, 0x29, 0xf8, 0x8a, 0xca,
    0x6c, 0x08, 0x1f, 0x2e, 0xfb, 0x9a, 0xc7, 0x9d, 0xe5, 0x38, 0x2b, 0xfe, 0x6b, 0x33, 0x30, 0x02,
    0x69, 0x7d, 0xd3, 0xc9, 0x55, 0xd1, 0x5e, 0xc8, 0x85, 0x9d, 0x40, 0x14, 0x90, 0x5d, 0xbe, 0xda,
    0xcc, 0x7d, 0x0d, 0x57, 0x73, 0x58, 0xf5, 0xc0, 0x28, 0x70, 0x46, 0xbb, 0xb5, 0xd6, 0xb7, 0xd3,
    0x2f, 0xc3, 0xc4, 0x99, 0xe0, 0x41, 0xd7, 0x2e, 0x3f, 0x90, 0x9c, 0x7d, 0x4e, 0xdb, 0xa2, 0x6c,
    0xc1, 0x6d, 0x8c, 0x8d, 0x0a, 0x61, 0x25, 0xa3, 0x29, 0xe6, 0x84, 0x7e, 0x39, 0x2f, 0xad, 0x07,
    0x9b, 0x8b, 0xf3, 0x92, 0x2c, 0x10, 0xc3, 0xee, 0x13, 0x05, 0x2e, 0x59, 0x10, 0x4e, 0x0f, 0x29,
    0x84, 0x42, 0x9a, 0x3d, 0xd5, 0xd8, 0x00, 0x30, 0x0e, 0x04, 0x0c, 0x68, 0x94, 0x55, 0xd9, 0xa6,
    0x7e, 0xe0, 0x29, 0x9e, 0xfe, 0x25, 0x9c, 0xae, 0x56, 0xac, 0x32, 0x5d, 0x25, 0x92, 0xa2, 0xe9,
    0xb5, 0x33, 0x4f, 0x7f, 0x3b, 0x50, 0x22, 0x44, 0xe2, 0x0f, 0x53, 0x1b, 0x80, 0x59, 0x61, 0x1a,
    0x01, 0xe3, 0xcc, 0xe8, 0x2e, 0xa3, 0x65, 0xcf, 0x54, 0x4e, 0x8f, 0x95, 0xae, 0x83, 0x70, 0xba,
    0x9b, 0x1e, 0x42, 0x66, 0xd9, 0x16, 0xb4, 0x99, 0x2b, 0x80, 0xc1, 0xb4, 0x4d, 0x15, 0x61, 0x22,
    0x48, 0x88, 0x52, 0x54, 0x66, 0x0d, 0x8b, 0x3d, 0x35, 0x85, 0xce, 0xf0, 0x0d, 0xa1, 0x51, 0x33,
    0x91, 0x8c, 0x38, 0x98, 0x3e, 0x86, 0x0c, 0x33, 0xaa, 0xe9, 0xbe, 0x82, 0x55, 0xba, 0x0e, 0x11,
    0x8a, 0x77, 0x91, 0x67, 0x66, 0x6f, 0x51, 0x47, 0x2f, 0x6b, 0x2f, 0x8d, 0xe1, 0x46, 0x4a, 0x88,
    0xea, 0x51, 0x0c, 0xa4, 0xe9, 0x5c, 0xf5, 0xec, 0x23, 0x54, 0x35, 0x94, 0xe6, 0xb2, 0x48, 0x21,
    0x04, 0x33, 0xf9, 0xe1, 0x72, 0x73, 0xfd, 0xca, 0xfd, 0x05, 0x33, 0xea, 0xd6, 0x91, 0x5b, 0x29,
    0x4b, 0x1e, 0x62, 0xdc, 0x7c, 0xe3, 0xe3, 0x52, 0x9f, 0x47, 0x4b, 0xac, 0x2d, 0x73, 0x3d, 0x03,
    0xdf, 0x41, 0x38, 0xea, 0xd0, 0xac, 0x18, 0x2d, 0xdc, 0x23, 0x7e, 0x29, 0xcd, 0x92, 0xf0, 0x64,
    0xd9, 0x4a, 0x32, 0x1f, 0xc3, 0xfd, 0xb2, 0x7e, 0x31, 0x9e, 0x3b, 0xf4, 0x72, 0xf2, 0x38, 0x6a,
    0x0a, 0x46, 0x0a, 0xa9, 0xd5, 0x19, 0x5f, 0xdc, 0x71, 0x6d, 0xc3, 0x92, 0xba, 0xd6, 0xdf, 0x23,
    0x60, 0x81, 0x10, 0x51, 0x3c, 0x7b, 0xe5, 0x83, 0x45, 0x9f, 0xb0, 0x95, 0x41, 0x6e, 0x57, 0x18,
    0xb2, 0x63, 0x9b, 0x6c, 0xe9, 0x05, 0x24, 0x95, 0x7f, 0x68, 0x92, 0xd6, 0x1e, 0x3b, 0x8f, 0xe5,
    0x48, 0x90, 0x67, 0xe7, 0xd2, 0x7c, 0x45, 0x3b, 0xb2, 0x3b, 0xe9, 0xc7, 0x87, 0xd9, 0x02, 0x5b,
    0xc4, 0x5b, 0xac, 0x21, 0x78, 0x96, 0xab, 0x86, 0x78, 0x97, 0xe4, 0xc7, 0x6d, 0x24, 0xdd, 0xa1,
    0x5c, 0xae, 0xff, 0x14, 0x5b, 0x3f, 0x4b, 0x6e, 0x97, 0x00, 0x06, 0xf0, 0x80, 0xc2, 0x6a, 0x03,
    0x66, 0x2d, 0xdf, 0xdd, 0x55, 0xf0, 0xe8, 0xc0, 0xd7, 0x55, 0xe3, 0x1d, 0x98, 0x03, 0xf7, 0xd0,
    0x42, 0xdb, 0xed, 0xcd, 0xd3, 0x25, 0xef, 0x9f, 0xb9, 0x79, 0x58, 0x33, 0x50, 0x74, 0xe5, 0x58,
    0x74, 0xe3, 0x15, 0xaa, 0x6c, 0x84, 0x9f, 0x27, 0x1e, 0x94, 0xf9, 0x91, 0xb1, 0x84, 0x3e, 0xd8,
    0x70, 0xe6, 0xb9, 0xd8, 0x7f, 0xd6, 0x20, 0x30, 0x88, 0x24, 0x63, 0x78, 0xae, 0xfa, 0x68, 0x0c,
    0x48, 0x62, 0x86, 0xea, 0x16, 0x36, 0x54, 0x68, 0x04, 0x78, 0x2e, 0x0e, 0xed, 0x29, 0xd8, 0xe7,
    0xd9, 0x4e, 0xe2, 0x41, 0x5c, 0x41, 0xcb, 0x10, 0x29, 0x5d, 0x3c, 0x39, 0xfd, 0xf1, 0x7a, 0x1d,
    0xbf, 0xfd, 0xfc, 0x6a, 0xde, 0x53, 0x3f, 0xeb, 0x34, 0x57, 0xd0, 0xee, 0x6d, 0xfa, 0xa7, 0xe8,
    0xc6, 0xe2, 0xad, 0xd6, 0x92, 0x5a, 0x6f, 0xa9, 0x68, 0x68, 0x3b, 0x0f, 0x92, 0xee, 0x67, 0x0b,
    0x56, 0xfc, 0x36, 0x0a, 0xb3, 0x08, 0x73, 0xe5, 0xc5, 0xf7, 0xb3, 0x54, 0xb1, 0xf3, 0x01, 0xc2,
    0x89, 0x83, 0x58, 0x35, 0xca, 0x6c, 0x75, 0x93, 0x0d, 0xd8, 0xa0, 0x29, 0xe8, 0x97, 0x2c, 0x42,
    0x06, 0xdf, 0x39, 0xe9, 0xe1, 0x19, 0xdc, 0xc8, 0xc4, 0xea, 0x5f, 0x80, 0xd3, 0x0e, 0xb0, 0xb4,
    0x33, 0x26, 0x10, 0x5e, 0xc2, 0x73, 0x42, 0xd0, 0x58, 0xb1, 0x95, 0xf9, 0x74, 0xe8, 0xa8, 0x12,
    0x5a, 0x21, 0x14, 0x10, 0xee, 0xa9, 0xd6, 0xda, 0x4e, 0xa0, 0x6a, 0xa3, 0x92, 0x33, 0x10, 0xdf,
    0xc9, 0x81, 0x19, 0x9c, 0x62, 0x72, 0x35, 0xd1, 0xd3, 0x8b, 0x79, 0xd0, 0x81, 0xff, 0xf5, 0xd3,
    0x01, 0x70, 0x79, 0x6e, 0x59, 0x73, 0xa7, 0xa0, 0xa8, 0x90, 0x18, 0x52, 0x55, 0x86, 0x8a, 0xee,
    0xcd, 0x9d, 0xe8, 0x45, 0x89, 0x09, 0x0d, 0xc8, 0x0d, 0xe2, 0x31, 0x69, 0x41, 0x1d, 0x79, 0x17,
    0xa1, 0x76, 0x5a, 0x80, 0x8a, 0xe1, 0x93, 0x10, 0x6b, 0x3e, 0xc7, 0xe3, 0xf2, 0xdd, 0x05, 0x76,
    0xcc, 0xdb, 0x0f, 0x92, 0xe4, 0x90, 0x69, 0xbf, 0x1e, 0x15, 0xf3, 0x72, 0x38, 0xd8, 0xb6, 0x1e,
    0x8f, 0x7a, 0x81, 0xcd, 0x17, 0x10, 0x9d, 0x65, 0xca, 0xfb, 0x63, 0xf0, 0x62, 0xee, 0x0e, 0x2b,
    0x6b, 0x40, 0x48, 0xef, 0xfc, 0xe5, 0xe3, 0x3e, 0xa2, 0x60, 0x3f, 0x4e, 0xfd, 0x2e, 0xb0, 0x0c,
    0x2f, 0x51, 0xef, 0x55, 0xc4, 0x8f, 0x24, 0x51, 0x28, 0x51, 0xb4, 0xf1, 0x3a, 0xa1, 0x9e, 0x12,
    0xe9, 0x6c, 0x8e, 0xdc, 0x18, 0x6d, 0x54, 0x70, 0x90, 0xe2, 0x25, 0xa6, 0xbe, 0x02, 0xb5, 0x3f,
    0x95, 0x4b, 0xc2, 0x2d, 0xca, 0xb3, 0xe5, 0x4b, 0x0a, 0xac, 0xb3, 0x7c, 0x22, 0x4c, 0x90, 0x12,
    0x84, 0x92, 0xcf, 0x9e, 0x26, 0x9b, 0xd8, 0xd6, 0xb5, 0xc6, 0xed, 0x29, 0x05, 0x57, 0x23, 0x0e,
    0x43, 0xe1, 0x29, 0x8a, 0xdc, 0x29, 0x09, 0xb4, 0x38, 0x90, 0xad, 0x66, 0x40, 0x3f, 0x81, 0x0a,
    0xca, 0x16, 0x16, 0x8a, 0x91, 0x8f, 0xe1, 0xe5, 0x42, 0x69, 0x0c, 0x2d, 0x89, 0xf8, 0x2a, 0xbb,
    0x27, 0x83, 0x2d, 0x4d, 0x64, 0xe0, 0x77, 0x52, 0x75, 0xe9, 0x6e, 0x1c, 0x80, 0x8b, 0xa2, 0x0f,
    0x10, 0xbb, 0x59, 0x07, 0x2c, 0x1a, 0x4c, 0x22, 0x99, 0xd8, 0x86, 0x95, 0x72, 0xa9, 0x0d, 0x09,
    0xfe, 0xed, 0xce, 0x17, 0xad, 0x50, 0xe8, 0x9b, 0x5c, 0x02, 0x83, 0x44, 0x56, 0xb7, 0xce, 0xfc,
    0x2b, 0x0a, 0x94, 0xe9, 0xfa, 0x5e, 0x2f, 0x91, 0xa6, 0xab, 0xec, 0x59, 0xb6, 0xdc, 0x8f, 0xde,
    0xdc, 0xf3, 0xc1, 0xb0, 0xd4, 0x88, 0x15, 0xe9, 0xb1, 0x6d, 0x6b, 0x8d, 0x17, 0x14, 0x4e, 0x33,
    0x20, 0xfc, 0x80, 0x62, 0xfa, 0x31, 0x3e, 0xea, 0x81, 0x3c, 0x28, 0x2d, 0x56, 0x20, 0x64, 0x17,
    0x18, 0xd1, 0x71, 0x48, 0x1b, 0x15, 0xf3, 0x1e, 0x5c, 0x37, 0xfc, 0x36, 0x50, 0x4e, 0x1e, 0x44,
    0x06, 0x07, 0x88, 0x9a, 0xfa, 0xfb, 0x2b, 0x7d, 0x69, 0x25, 0xe2, 0xdf, 0xfa, 0x3b, 0xe0, 0xe5,
    0x9c, 0x16, 0x83, 0x65, 0x16, 0xb3, 0x30, 0x74, 0x42, 0xe7, 0xd0, 0x54, 0xbb, 0xb1, 0x87, 0xf2,
    0xcb, 0xf9, 0x33, 0x75, 0x51, 0x68, 0x9d, 0xdf, 0xdd, 0x04, 0xaf, 0xf2, 0xb6, 0x93, 0x6d, 0x00,
    0xc1, 0x75, 0xd0, 0x57, 0x79, 0xea, 0x37, 0x09, 0x30, 0x67, 0x71, 0xce, 0xe9, 0x16, 0x98, 0x88,
    0xe1, 0xa3, 0x4c, 0xab, 0xad, 0x20, 0x26, 0x0a, 0x97, 0xe3, 0x55, 0xa7, 0xd5, 0x8c, 0x35, 0x61,
    0x95, 0x0e, 0xd4, 0xb9, 0xc9, 0xa8, 0xb1, 0x5f, 0xb4, 0x61, 0x54, 0xa9, 0xda, 0xda, 0x26, 0xcd,
    0x33, 0x71, 0xbd, 0x74, 0xef, 0x05, 0xa6, 0x91, 0x5a, 0x85, 0x98, 0x2d, 0xa6, 0x52, 0x89, 0x0c,
    0x79, 0x6a, 0x93, 0x13, 0x24, 0xfe, 0x8b, 0xaa, 0xf9, 0x76, 0xca, 0x29, 0x49, 0x04, 0xf7, 0xcd,
    0x36, 0xb1, 0x48, 0x87, 0xb7, 0xa7, 0xbd, 0x76, 0x92, 0xf1, 0x60, 0x1c, 0x8d, 0xb3, 0xda, 0x6d,
    0x2b, 0x50, 0x5f, 0x8a, 0x9d, 0x49, 0x0d, 0x7d, 0x5a, 0xd1, 0xc2, 0x26, 0x25, 0x68, 0x94, 0x73,
    0x5a, 0x65, 0x54, 0x37, 0xca, 0x05, 0xd8, 0x1b, 0x98, 0xec, 0x12, 0x9e, 0x0e, 0xfa, 0xa3, 0x06,
    0x77, 0x34, 0x28, 0xcd, 0xec, 0xa7, 0x0c, 0x01, 0xf4, 0x3e, 0x62, 0x62, 0x8e, 0x84, 0x66, 0xb1,
    0x59, 0x99, 0x0e, 0x23, 0x4c, 0x6e, 0x2f, 0x37, 0xb8, 0x73, 0x5d, 0xa9, 0x9b, 0x77, 0xc1, 0xde,
    0x21, 0x3b, 0xa8, 0x35, 0xd5, 0x8f, 0x0b, 0x8a, 0x87, 0x17, 0xb3, 0x16, 0x1e, 0x3b, 0x80, 0x28,
    0x34, 0x92, 0x8b, 0xa4, 0xd3, 0x7a, 0xc5, 0x1d, 0x5d, 0x8a, 0x63, 0x0c, 0x34, 0x0f, 0x12, 0x19,
    0x9a, 0xb1, 0xe2, 0x13, 0x75, 0x7b, 0x46, 0xa1, 0x64, 0xb4, 0x9b, 0xdb, 0x14, 0x12, 0xf8, 0x1a,
    0x7a, 0x04, 0x4e, 0x31, 0xe0, 0x1d, 0x34, 0xf7, 0x24, 0x58, 0x3a, 0x1b, 0x6e, 0xa2, 0xa3, 0x64,
    0xa2, 0x5a, 0xb3, 0x4c, 0x39, 0xfd, 0x99, 0xb9, 0xc1, 0x19, 0xd5, 0x03, 0x25, 0xd4, 0x50, 0x34,
    0xfe, 0xb5, 0x6a, 0xf8, 0x3d, 0xe5, 0x6e, 0x75, 0xc6, 0x18, 0x84, 0x6c, 0x4b, 0xff, 0x29, 0x13,
];

} // verus!
