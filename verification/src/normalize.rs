//! Per-channel normalisation of colour samples.
//!
//! A sample `v` of channel `c` becomes the single-precision number
//! `(v / 255 - MEAN[c]) / STD[c]`, where `MEAN = [0.485, 0.456, 0.406]` and
//! `STD = [0.229, 0.224, 0.225]` for red, green and blue, and where the
//! division, the subtraction and the second division are each rounded to single
//! precision. A channel has only 256 samples, so the results are tabulated here
//! as bit patterns and normalising is a table lookup.

use vstd::prelude::*;

verus! {

/// The number of colour channels: red, green, blue, in this order.
pub const CHANNELS: usize = 3;

/// The normalised red samples, by sample value.
pub const RED: [u32; 256] = [
    0xC0078BBD, 0xC006732B, 0xC0055A98, 0xC0044206, 0xC0032973, 0xC00210E1,
    0xC000F84F, 0xBFFFBF78, 0xBFFD8E54, 0xBFFB5D2F, 0xBFF92C0A, 0xBFF6FAE5,
    0xBFF4C9C0, 0xBFF2989B, 0xBFF06776, 0xBFEE3652, 0xBFEC052D, 0xBFE9D408,
    0xBFE7A2E3, 0xBFE571BE, 0xBFE34099, 0xBFE10F75, 0xBFDEDE50, 0xBFDCAD2B,
    0xBFDA7C06, 0xBFD84AE1, 0xBFD619BC, 0xBFD3E898, 0xBFD1B773, 0xBFCF864E,
    0xBFCD5529, 0xBFCB2404, 0xBFC8F2DF, 0xBFC6C1BB, 0xBFC49096, 0xBFC25F71,
    0xBFC02E4C, 0xBFBDFD27, 0xBFBBCC02, 0xBFB99ADE, 0xBFB769B9, 0xBFB53894,
    0xBFB3076F, 0xBFB0D64A, 0xBFAEA525, 0xBFAC7401, 0xBFAA42DC, 0xBFA811B7,
    0xBFA5E092, 0xBFA3AF6D, 0xBFA17E48, 0xBF9F4D24, 0xBF9D1BFF, 0xBF9AEADA,
    0xBF98B9B5, 0xBF968890, 0xBF94576B, 0xBF922646, 0xBF8FF522, 0xBF8DC3FD,
    0xBF8B92D7, 0xBF8961B3, 0xBF87308E, 0xBF84FF69, 0xBF82CE44, 0xBF809D1F,
    0xBF7CD7F4, 0xBF7875AA, 0xBF741360, 0xBF6FB117, 0xBF6B4ECD, 0xBF66EC83,
    0xBF628A3A, 0xBF5E27F0, 0xBF59C5A6, 0xBF55635D, 0xBF510113, 0xBF4C9EC9,
    0xBF483C80, 0xBF43DA36, 0xBF3F77EC, 0xBF3B15A3, 0xBF36B359, 0xBF32510F,
    0xBF2DEEC6, 0xBF298C7C, 0xBF252A32, 0xBF20C7E9, 0xBF1C659F, 0xBF180355,
    0xBF13A10C, 0xBF0F3EC2, 0xBF0ADC78, 0xBF067A2F, 0xBF0217E5, 0xBEFB6B36,
    0xBEF2A6A3, 0xBEE9E210, 0xBEE11D7C, 0xBED858E9, 0xBECF9456, 0xBEC6CFC2,
    0xBEBE0B2F, 0xBEB5469C, 0xBEAC8208, 0xBEA3BD75, 0xBE9AF8E2, 0xBE92344E,
    0xBE896FBB, 0xBE80AB28, 0xBE6FCD28, 0xBE5E4402, 0xBE4CBADB, 0xBE3B31B4,
    0xBE29A88E, 0xBE181F67, 0xBE069640, 0xBDEA1A33, 0xBDC707E5, 0xBDA3F598,
    0xBD80E34B, 0xBD3BA1FB, 0xBCEAFAC0, 0xBC3D6314, 0x3BB65EAE, 0x3CB9E0E1,
    0x3D23150B, 0x3D6939A6, 0x3D97AF32, 0x3DBAC17F, 0x3DDDD3CD, 0x3E00730D,
    0x3E11FC34, 0x3E23855A, 0x3E350E81, 0x3E4697A8, 0x3E5820CF, 0x3E69A9F5,
    0x3E7B331C, 0x3E865E21, 0x3E8F22B5, 0x3E97E748, 0x3EA0ABDB, 0x3EA9706F,
    0x3EB23502, 0x3EBAF995, 0x3EC3BE29, 0x3ECC82BC, 0x3ED5474F, 0x3EDE0BE3,
    0x3EE6D076, 0x3EEF9509, 0x3EF8599D, 0x3F008F18, 0x3F04F162, 0x3F0953AB,
    0x3F0DB5F5, 0x3F12183F, 0x3F167A88, 0x3F1ADCD2, 0x3F1F3F1C, 0x3F23A165,
    0x3F2803AF, 0x3F2C65F9, 0x3F30C843, 0x3F352A8C, 0x3F398CD6, 0x3F3DEF20,
    0x3F425169, 0x3F46B3B3, 0x3F4B15FD, 0x3F4F7846, 0x3F53DA90, 0x3F583CDA,
    0x3F5C9F23, 0x3F61016D, 0x3F6563B7, 0x3F69C600, 0x3F6E284A, 0x3F728A94,
    0x3F76ECDD, 0x3F7B4F27, 0x3F7FB171, 0x3F8209DD, 0x3F843B02, 0x3F866C27,
    0x3F889D4C, 0x3F8ACE71, 0x3F8CFF95, 0x3F8F30BA, 0x3F9161DF, 0x3F939304,
    0x3F95C429, 0x3F97F54E, 0x3F9A2672, 0x3F9C5797, 0x3F9E88BC, 0x3FA0B9E1,
    0x3FA2EB06, 0x3FA51C2B, 0x3FA74D4F, 0x3FA97E74, 0x3FABAF99, 0x3FADE0BE,
    0x3FB011E3, 0x3FB24308, 0x3FB4742C, 0x3FB6A551, 0x3FB8D676, 0x3FBB079B,
    0x3FBD38C0, 0x3FBF69E5, 0x3FC19B09, 0x3FC3CC2E, 0x3FC5FD53, 0x3FC82E78,
    0x3FCA5F9D, 0x3FCC90C2, 0x3FCEC1E6, 0x3FD0F30B, 0x3FD32430, 0x3FD55555,
    0x3FD7867A, 0x3FD9B79F, 0x3FDBE8C3, 0x3FDE19E8, 0x3FE04B0D, 0x3FE27C32,
    0x3FE4AD57, 0x3FE6DE7C, 0x3FE90FA1, 0x3FEB40C5, 0x3FED71EA, 0x3FEFA30F,
    0x3FF1D434, 0x3FF40559, 0x3FF6367E, 0x3FF867A2, 0x3FFA98C7, 0x3FFCC9EC,
    0x3FFEFB11, 0x4000961B, 0x4001AEAD, 0x4002C740, 0x4003DFD2, 0x4004F865,
    0x400610F7, 0x40072989, 0x4008421C, 0x40095AAE, 0x400A7341, 0x400B8BD3,
    0x400CA465, 0x400DBCF8, 0x400ED58A, 0x400FEE1D,
];

/// The normalised green samples, by sample value.
pub const GREEN: [u32; 256] = [
    0xC0024924, 0xC0012A4F, 0xC0000B79, 0xBFFDD947, 0xBFFB9B9B, 0xBFF95DF0,
    0xBFF72044, 0xBFF4E299, 0xBFF2A4EE, 0xBFF06742, 0xBFEE2997, 0xBFEBEBEC,
    0xBFE9AE40, 0xBFE77095, 0xBFE532E9, 0xBFE2F53E, 0xBFE0B793, 0xBFDE79E7,
    0xBFDC3C3C, 0xBFD9FE91, 0xBFD7C0E5, 0xBFD5833A, 0xBFD3458E, 0xBFD107E3,
    0xBFCECA38, 0xBFCC8C8C, 0xBFCA4EE1, 0xBFC81136, 0xBFC5D38A, 0xBFC395DF,
    0xBFC15834, 0xBFBF1A88, 0xBFBCDCDC, 0xBFBA9F30, 0xBFB86185, 0xBFB623DA,
    0xBFB3E62E, 0xBFB1A883, 0xBFAF6AD7, 0xBFAD2D2C, 0xBFAAEF81, 0xBFA8B1D5,
    0xBFA6742A, 0xBFA4367F, 0xBFA1F8D3, 0xBF9FBB28, 0xBF9D7D7C, 0xBF9B3FD1,
    0xBF990226, 0xBF96C47A, 0xBF9486CF, 0xBF924924, 0xBF900B78, 0xBF8DCDCD,
    0xBF8B9022, 0xBF895277, 0xBF8714CB, 0xBF84D720, 0xBF829975, 0xBF805BC9,
    0xBF7C3C3C, 0xBF77C0E5, 0xBF73458E, 0xBF6ECA37, 0xBF6A4EE0, 0xBF65D389,
    0xBF615832, 0xBF5CDCDB, 0xBF586185, 0xBF53E62E, 0xBF4F6AD7, 0xBF4AEF80,
    0xBF46742A, 0xBF41F8D3, 0xBF3D7D7C, 0xBF390225, 0xBF3486CF, 0xBF300B78,
    0xBF2B9021, 0xBF2714CA, 0xBF229974, 0xBF1E1E1D, 0xBF19A2C6, 0xBF152770,
    0xBF10AC19, 0xBF0C30C2, 0xBF07B56B, 0xBF033A15, 0xBEFD7D7C, 0xBEF486CE,
    0xBEEB9021, 0xBEE29973, 0xBED9A2C6, 0xBED0AC18, 0xBEC7B56B, 0xBEBEBEBD,
    0xBEB5C810, 0xBEACD162, 0xBEA3DAB5, 0xBE9AE407, 0xBE91ED5A, 0xBE88F6AC,
    0xBE7FFFFE, 0xBE6E12A3, 0xBE5C2548, 0xBE4A37ED, 0xBE384A92, 0xBE265D37,
    0xBE146FDC, 0xBE028281, 0xBDE12A4C, 0xBDBD4F96, 0xBD9974E0, 0xBD6B3455,
    0xBD237EE9, 0xBCB792FA, 0xBBA0A089, 0x3C4E856B, 0x3CF6AD8D, 0x3D430C32,
    0x3D8560CF, 0x3DA93B85, 0x3DCD163B, 0x3DF0F0F1, 0x3E0A65D3, 0x3E1C532E,
    0x3E2E4089, 0x3E402DE4, 0x3E521B48, 0x3E6408A3, 0x3E75F5FE, 0x3E83F1AD,
    0x3E8CE85A, 0x3E95DF08, 0x3E9ED5B5, 0x3EA7CC62, 0x3EB0C310, 0x3EB9B9BD,
    0x3EC2B06B, 0x3ECBA718, 0x3ED49DC6, 0x3EDD9473, 0x3EE68B21, 0x3EEF81CE,
    0x3EF8787C, 0x3F00B795, 0x3F0532EB, 0x3F09AE42, 0x3F0E2999, 0x3F12A4F0,
    0x3F172046, 0x3F1B9B9D, 0x3F2016F4, 0x3F24924B, 0x3F290DA1, 0x3F2D88F8,
    0x3F32044F, 0x3F367FA6, 0x3F3AFAFC, 0x3F3F7653, 0x3F43F1AA, 0x3F486D01,
    0x3F4CE857, 0x3F5163AE, 0x3F55DF05, 0x3F5A5A5B, 0x3F5ED5B2, 0x3F635109,
    0x3F67CC60, 0x3F6C47B6, 0x3F70C30D, 0x3F753E64, 0x3F79B9BB, 0x3F7E3511,
    0x3F815834, 0x3F8395DF, 0x3F85D38B, 0x3F881136, 0x3F8A4EE2, 0x3F8C8C8D,
    0x3F8ECA38, 0x3F9107E4, 0x3F93458F, 0x3F95833A, 0x3F97C0E6, 0x3F99FE91,
    0x3F9C3C3D, 0x3F9E79E8, 0x3FA0B793, 0x3FA2F53F, 0x3FA532EA, 0x3FA77095,
    0x3FA9AE41, 0x3FABEBEC, 0x3FAE2997, 0x3FB06743, 0x3FB2A4EE, 0x3FB4E29A,
    0x3FB72045, 0x3FB95DF0, 0x3FBB9B9C, 0x3FBDD947, 0x3FC016F2, 0x3FC2549E,
    0x3FC49249, 0x3FC6CFF5, 0x3FC90DA0, 0x3FCB4B4B, 0x3FCD88F7, 0x3FCFC6A2,
    0x3FD2044D, 0x3FD441F9, 0x3FD67FA4, 0x3FD8BD50, 0x3FDAFAFB, 0x3FDD38A6,
    0x3FDF7652, 0x3FE1B3FD, 0x3FE3F1A8, 0x3FE62F54, 0x3FE86CFF, 0x3FEAAAAA,
    0x3FECE856, 0x3FEF2601, 0x3FF163AD, 0x3FF3A158, 0x3FF5DF03, 0x3FF81CAF,
    0x3FFA5A5A, 0x3FFC9805, 0x3FFED5B1, 0x400089AE, 0x4001A884, 0x4002C759,
    0x4003E62F, 0x40050505, 0x400623DB, 0x400742B0, 0x40086186, 0x4009805C,
    0x400A9F31, 0x400BBE07, 0x400CDCDD, 0x400DFBB2, 0x400F1A87, 0x4010395E,
    0x40115833, 0x4012770A, 0x401395DE, 0x4014B4B5, 0x4015D38A, 0x4016F260,
    0x40181135, 0x4019300C, 0x401A4EE0, 0x401B6DB7,
];

/// The normalised blue samples, by sample value.
pub const BLUE: [u32; 256] = [
    0xBFE6F809, 0xBFE4BCEA, 0xBFE281CC, 0xBFE046AD, 0xBFDE0B8E, 0xBFDBD070,
    0xBFD99551, 0xBFD75A32, 0xBFD51F14, 0xBFD2E3F5, 0xBFD0A8D6, 0xBFCE6DB8,
    0xBFCC3299, 0xBFC9F77A, 0xBFC7BC5C, 0xBFC5813D, 0xBFC3461E, 0xBFC10B00,
    0xBFBECFE1, 0xBFBC94C2, 0xBFBA59A4, 0xBFB81E85, 0xBFB5E366, 0xBFB3A848,
    0xBFB16D29, 0xBFAF320A, 0xBFACF6EC, 0xBFAABBCD, 0xBFA880AE, 0xBFA64590,
    0xBFA40A71, 0xBFA1CF52, 0xBF9F9432, 0xBF9D5914, 0xBF9B1DF5, 0xBF98E2D6,
    0xBF96A7B8, 0xBF946C99, 0xBF92317A, 0xBF8FF65C, 0xBF8DBB3E, 0xBF8B801F,
    0xBF894500, 0xBF8709E2, 0xBF84CEC3, 0xBF8293A4, 0xBF805886, 0xBF7C3ACE,
    0xBF77C491, 0xBF734E53, 0xBF6ED816, 0xBF6A61D9, 0xBF65EB9B, 0xBF61755E,
    0xBF5CFF21, 0xBF5888E3, 0xBF5412A6, 0xBF4F9C69, 0xBF4B262B, 0xBF46AFEE,
    0xBF4239B1, 0xBF3DC373, 0xBF394D36, 0xBF34D6F9, 0xBF3060BA, 0xBF2BEA7D,
    0xBF27743F, 0xBF22FE02, 0xBF1E87C5, 0xBF1A1187, 0xBF159B4A, 0xBF11250D,
    0xBF0CAECF, 0xBF083892, 0xBF03C255, 0xBEFE982F, 0xBEF5ABB4, 0xBEECBF39,
    0xBEE3D2BF, 0xBEDAE644, 0xBED1F9C9, 0xBEC90D4F, 0xBEC020D4, 0xBEB73459,
    0xBEAE47DF, 0xBEA55B64, 0xBE9C6EE9, 0xBE93826E, 0xBE8A95F4, 0xBE81A979,
    0xBE7179FD, 0xBE5FA107, 0xBE4DC812, 0xBE3BEF1D, 0xBE2A1627, 0xBE183D32,
    0xBE06643D, 0xBDE9168F, 0xBDC564A4, 0xBDA1B2B9, 0xBD7C019D, 0xBD349DC7,
    0xBCDA73E4, 0xBC175872, 0x3C0636E4, 0x3CD1E31D, 0x3D305564, 0x3D77B939,
    0x3D9F8E87, 0x3DC34072, 0x3DE6F25D, 0x3E055224, 0x3E172B19, 0x3E29040F,
    0x3E3ADD04, 0x3E4CB5F9, 0x3E5E8EEF, 0x3E7067E4, 0x3E81206D, 0x3E8A0CE7,
    0x3E92F962, 0x3E9BE5DD, 0x3EA4D257, 0x3EADBED2, 0x3EB6AB4D, 0x3EBF97C7,
    0x3EC88442, 0x3ED170BD, 0x3EDA5D3C, 0x3EE349B7, 0x3EEC3631, 0x3EF522AC,
    0x3EFE0F27, 0x3F037DD1, 0x3F07F40E, 0x3F0C6A4B, 0x3F10E089, 0x3F1556C6,
    0x3F19CD03, 0x3F1E4341, 0x3F22B97E, 0x3F272FBB, 0x3F2BA5F9, 0x3F301C36,
    0x3F349273, 0x3F3908B1, 0x3F3D7EEE, 0x3F41F52B, 0x3F466B69, 0x3F4AE1A6,
    0x3F4F57E3, 0x3F53CE21, 0x3F58445E, 0x3F5CBA9B, 0x3F6130D9, 0x3F65A716,
    0x3F6A1D54, 0x3F6E9391, 0x3F7309CE, 0x3F77800C, 0x3F7BF649, 0x3F803643,
    0x3F827162, 0x3F84AC80, 0x3F86E79F, 0x3F8922BE, 0x3F8B5DDC, 0x3F8D98FB,
    0x3F8FD41A, 0x3F920F38, 0x3F944A57, 0x3F968576, 0x3F98C094, 0x3F9AFBB3,
    0x3F9D36D2, 0x3F9F71F0, 0x3FA1AD0F, 0x3FA3E82E, 0x3FA6234D, 0x3FA85E6B,
    0x3FAA998A, 0x3FACD4A9, 0x3FAF0FC7, 0x3FB14AE6, 0x3FB38605, 0x3FB5C123,
    0x3FB7FC42, 0x3FBA3761, 0x3FBC727F, 0x3FBEAD9E, 0x3FC0E8BD, 0x3FC323DB,
    0x3FC55EFA, 0x3FC79A19, 0x3FC9D537, 0x3FCC1056, 0x3FCE4B75, 0x3FD08693,
    0x3FD2C1B2, 0x3FD4FCD1, 0x3FD737EF, 0x3FD9730E, 0x3FDBAE2D, 0x3FDDE94B,
    0x3FE0246A, 0x3FE25F89, 0x3FE49AA7, 0x3FE6D5C6, 0x3FE910E5, 0x3FEB4C03,
    0x3FED8722, 0x3FEFC241, 0x3FF1FD5F, 0x3FF4387E, 0x3FF6739D, 0x3FF8AEBB,
    0x3FFAE9DA, 0x3FFD24F9, 0x3FFF6017, 0x4000CD9B, 0x4001EB2A, 0x400308BA,
    0x40042649, 0x400543D8, 0x40066168, 0x40077EF7, 0x40089C86, 0x4009BA16,
    0x400AD7A5, 0x400BF534, 0x400D12C4, 0x400E3053, 0x400F4DE3, 0x40106B71,
    0x40118902, 0x4012A690, 0x4013C420, 0x4014E1AE, 0x4015FF3F, 0x40171CCD,
    0x40183A5E, 0x401957EC, 0x401A757C, 0x401B930A, 0x401CB09B, 0x401DCE29,
    0x401EEBBA, 0x40200948, 0x402126D8, 0x40224467, 0x402361F7, 0x40247F85,
    0x40259D16, 0x4026BAA4, 0x4027D834, 0x4028F5C3,
];

/// The bit pattern of the normalised value of `sample` in `channel`.
pub open spec fn normalized(channel: int, sample: u8) -> u32 {
    if channel == 0 {
        RED[sample as int]
    } else if channel == 1 {
        GREEN[sample as int]
    } else {
        BLUE[sample as int]
    }
}

/// Normalises one sample of the given channel.
pub fn normalize(channel: usize, sample: u8) -> (out: u32)
    requires
        channel < CHANNELS,
    ensures
        out == normalized(channel as int, sample),
{
    if channel == 0 {
        RED[sample as usize]
    } else if channel == 1 {
        GREEN[sample as usize]
    } else {
        BLUE[sample as usize]
    }
}

} // verus!
