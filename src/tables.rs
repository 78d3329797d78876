//! Marching-cubes triangulation table.
use vstd::prelude::*;

verus! {

/// For each of the 256 corner classifications, the cube edges on which the
/// surface's triangle corners lie, three per triangle in winding order.
///
/// Row `c` is packed into one word, four bits per entry, first entry in the
/// lowest four bits; the row ends at the first entry that is not an edge
/// (every unused entry is `0xF`). Read as hexadecimal, the entries of a row
/// appear right to left.
pub const TRIANGLE_TABLE: [u64; 256] = [
    0xFFFF_FFFF_FFFF_FFFF, // 0
    0xFFFF_FFFF_FFFF_F380, // 1
    0xFFFF_FFFF_FFFF_F910, // 2
    0xFFFF_FFFF_FF18_9381, // 3
    0xFFFF_FFFF_FFFF_FA21, // 4
    0xFFFF_FFFF_FFA2_1380, // 5
    0xFFFF_FFFF_FF92_0A29, // 6
    0xFFFF_FFF8_9A8A_2382, // 7
    0xFFFF_FFFF_FFFF_F2B3, // 8
    0xFFFF_FFFF_FF0B_82B0, // 9
    0xFFFF_FFFF_FFB3_2091, // 10
    0xFFFF_FFFB_89B9_12B1, // 11
    0xFFFF_FFFF_FF3A_B1A3, // 12
    0xFFFF_FFFA_B8A8_01A0, // 13
    0xFFFF_FFF9_AB9B_3093, // 14
    0xFFFF_FFFF_FFB8_AA89, // 15
    0xFFFF_FFFF_FFFF_F874, // 16
    0xFFFF_FFFF_FF43_7034, // 17
    0xFFFF_FFFF_FF74_8910, // 18
    0xFFFF_FFF1_3717_4914, // 19
    0xFFFF_FFFF_FF74_8A21, // 20
    0xFFFF_FFFA_2140_3743, // 21
    0xFFFF_FFF7_4820_9A29, // 22
    0xFFFF_4973_7279_29A2, // 23
    0xFFFF_FFFF_FF2B_3748, // 24
    0xFFFF_FFF4_0242_B74B, // 25
    0xFFFF_FFFB_3274_8109, // 26
    0xFFFF_1292_B9B4_9B74, // 27
    0xFFFF_FFF4_87AB_31A3, // 28
    0xFFFF_4B74_01B4_1AB1, // 29
    0xFFFF_30BA_B9B0_9874, // 30
    0xFFFF_FFFA_B99B_4B74, // 31
    0xFFFF_FFFF_FFFF_F459, // 32
    0xFFFF_FFFF_FF38_0459, // 33
    0xFFFF_FFFF_FF05_1450, // 34
    0xFFFF_FFF5_1353_8458, // 35
    0xFFFF_FFFF_FF45_9A21, // 36
    0xFFFF_FFF5_94A2_1803, // 37
    0xFFFF_FFF2_0424_5A25, // 38
    0xFFFF_8434_5352_35A2, // 39
    0xFFFF_FFFF_FFB3_2459, // 40
    0xFFFF_FFF5_94B8_02B0, // 41
    0xFFFF_FFFB_3251_0450, // 42
    0xFFFF_584B_8285_2512, // 43
    0xFFFF_FFF4_5931_AB3A, // 44
    0xFFFF_AB81_A818_0594, // 45
    0xFFFF_30BA_B5B0_5045, // 46
    0xFFFF_FFFB_8AA8_5845, // 47
    0xFFFF_FFFF_FF97_5879, // 48
    0xFFFF_FFF3_7535_9039, // 49
    0xFFFF_FFF7_5171_0870, // 50
    0xFFFF_FFFF_FF75_3351, // 51
    0xFFFF_FFF2_1A75_9879, // 52
    0xFFFF_3750_3505_921A, // 53
    0xFFFF_25A7_5852_8208, // 54
    0xFFFF_FFF7_5335_25A2, // 55
    0xFFFF_FFF2_B398_7597, // 56
    0xFFFF_B720_2927_9759, // 57
    0xFFFF_7518_7181_0B32, // 58
    0xFFFF_FFF5_1771_B12B, // 59
    0xFFFF_B3A3_1A75_8859, // 60
    0xF0AB_A010_B790_5075, // 61
    0xF075_7080_5A30_B0AB, // 62
    0xFFFF_FFFF_FF5B_75AB, // 63
    0xFFFF_FFFF_FFFF_F56A, // 64
    0xFFFF_FFFF_FF6A_5380, // 65
    0xFFFF_FFFF_FF6A_5109, // 66
    0xFFFF_FFF6_A589_1381, // 67
    0xFFFF_FFFF_FF16_2561, // 68
    0xFFFF_FFF8_0362_1561, // 69
    0xFFFF_FFF6_2060_9569, // 70
    0xFFFF_8236_2528_5895, // 71
    0xFFFF_FFFF_FF56_AB32, // 72
    0xFFFF_FFF5_6A02_B80B, // 73
    0xFFFF_FFF6_A5B3_2910, // 74
    0xFFFF_B892_B929_16A5, // 75
    0xFFFF_FFF3_1535_6B36, // 76
    0xFFFF_6B51_505B_0B80, // 77
    0xFFFF_9505_6063_06B3, // 78
    0xFFFF_FFF8_9BB9_6956, // 79
    0xFFFF_FFFF_FF87_46A5, // 80
    0xFFFF_FFFA_5637_4034, // 81
    0xFFFF_FFF7_486A_5091, // 82
    0xFFFF_4973_7179_156A, // 83
    0xFFFF_FFF8_7415_6216, // 84
    0xFFFF_7434_0362_5521, // 85
    0xFFFF_6205_6050_9748, // 86
    0xF962_6959_2349_7937, // 87
    0xFFFF_FFF5_6A48_72B3, // 88
    0xFFFF_B720_2427_46A5, // 89
    0xFFFF_6A5B_3287_4910, // 90
    0xF6A5_4B7B_492B_9129, // 91
    0xFFFF_6B51_535B_3748, // 92
    0xFB40_4B7B_016B_5B15, // 93
    0xF748_36B6_3056_0950, // 94
    0xFFFF_9B79_74B9_6956, // 95
    0xFFFF_FFFF_FFA4_694A, // 96
    0xFFFF_FFF3_80A9_46A4, // 97
    0xFFFF_FFF0_4606_A10A, // 98
    0xFFFF_A164_6861_8138, // 99
    0xFFFF_FFF4_6242_1941, // 100
    0xFFFF_4629_4292_1803, // 101
    0xFFFF_FFFF_FF62_4420, // 102
    0xFFFF_FFF6_2442_8238, // 103
    0xFFFF_FFF3_2B46_A94A, // 104
    0xFFFF_6A4A_94B8_2280, // 105
    0xFFFF_A164_6061_02B3, // 106
    0xF1B8_B121_84A1_6146, // 107
    0xFFFF_36B3_1963_9469, // 108
    0xF146_4191_6B01_81B8, // 109
    0xFFFF_FFF4_6006_36B3, // 110
    0xFFFF_FFFF_FF86_B846, // 111
    0xFFFF_FFFA_98A8_76A7, // 112
    0xFFFF_A76A_907A_0370, // 113
    0xFFFF_0818_717A_176A, // 114
    0xFFFF_FFF3_7117_A76A, // 115
    0xFFFF_7689_8186_1621, // 116
    0xF937_3909_7619_2962, // 117
    0xFFFF_FFF2_0660_7087, // 118
    0xFFFF_FFFF_FF27_6237, // 119
    0xFFFF_7689_8A86_AB32, // 120
    0xF7A9_A767_90B7_2702, // 121
    0xFB32_A767_A187_1081, // 122
    0xFFFF_1761_6A71_B12B, // 123
    0xF631_36B6_1976_8698, // 124
    0xFFFF_FFFF_FF76_B190, // 125
    0xFFFF_06B0_B360_7087, // 126
    0xFFFF_FFFF_FFFF_F6B7, // 127
    0xFFFF_FFFF_FFFF_FB67, // 128
    0xFFFF_FFFF_FF67_B803, // 129
    0xFFFF_FFFF_FF67_B910, // 130
    0xFFFF_FFF6_7B13_8918, // 131
    0xFFFF_FFFF_FF7B_621A, // 132
    0xFFFF_FFF7_B680_3A21, // 133
    0xFFFF_FFF7_B69A_2092, // 134
    0xFFFF_89A3_8A3A_27B6, // 135
    0xFFFF_FFFF_FF72_6327, // 136
    0xFFFF_FFF0_2606_7807, // 137
    0xFFFF_FFF9_1073_2672, // 138
    0xFFFF_6788_9168_1261, // 139
    0xFFFF_FFF7_3171_A67A, // 140
    0xFFFF_8017_81A7_167A, // 141
    0xFFFF_7A69_A0A7_0730, // 142
    0xFFFF_FFF9_A88A_7A67, // 143
    0xFFFF_FFFF_FF68_B486, // 144
    0xFFFF_FFF6_4060_3B63, // 145
    0xFFFF_FFF1_0964_8B68, // 146
    0xFFFF_63B1_3936_9649, // 147
    0xFFFF_FFF1_A28B_6486, // 148
    0xFFFF_640B_60B0_3A21, // 149
    0xFFFF_9A29_20B6_48B4, // 150
    0xF364_63B3_4923_A39A, // 151
    0xFFFF_FFF2_6424_8328, // 152
    0xFFFF_FFFF_FF26_4240, // 153
    0xFFFF_8346_4243_2091, // 154
    0xFFFF_FFF6_4224_1491, // 155
    0xFFFF_1A66_4816_8318, // 156
    0xFFFF_FFF4_0660_A01A, // 157
    0xF39A_9303_A683_4364, // 158
    0xFFFF_FFFF_FF4A_649A, // 159
    0xFFFF_FFFF_FFB6_7594, // 160
    0xFFFF_FFF6_7B59_4380, // 161
    0xFFFF_FFFB_6704_5105, // 162
    0xFFFF_5134_5343_867B, // 163
    0xFFFF_FFFB_6721_A459, // 164
    0xFFFF_5943_80A2_17B6, // 165
    0xFFFF_204A_24A4_5B67, // 166
    0xF67B_25A5_2345_3843, // 167
    0xFFFF_FFF9_4526_7327, // 168
    0xFFFF_7862_6068_0459, // 169
    0xFFFF_0450_5167_3263, // 170
    0xF851_5848_1278_6826, // 171
    0xFFFF_7316_7161_A459, // 172
    0xF459_0787_0167_1A61, // 173
    0xFA73_7A6A_305A_4A04, // 174
    0xFFFF_A84A_458A_7A67, // 175
    0xFFFF_FFF9_8B9B_6596, // 176
    0xFFFF_5906_5036_0B63, // 177
    0xFFFF_B655_10B5_08B0, // 178
    0xFFFF_FFF1_3553_63B6, // 179
    0xFFFF_65B8_B9B5_9A21, // 180
    0xFA21_9656_90B6_03B0, // 181
    0xF520_25A5_0865_B58B, // 182
    0xFFFF_35A3_A253_63B6, // 183
    0xFFFF_2832_6582_5985, // 184
    0xFFFF_FFF2_6006_9659, // 185
    0xF826_2838_6508_1851, // 186
    0xFFFF_FFFF_FF61_2651, // 187
    0xF698_9656_83A6_1631, // 188
    0xFFFF_0650_5960_A01A, // 189
    0xFFFF_FFFF_FFA6_5830, // 190
    0xFFFF_FFFF_FFFF_F65A, // 191
    0xFFFF_FFFF_FFB5_7A5B, // 192
    0xFFFF_FFF0_3857_BA5B, // 193
    0xFFFF_FFF0_91BA_57B5, // 194
    0xFFFF_1381_897B_A57A, // 195
    0xFFFF_FFF1_5717_B21B, // 196
    0xFFFF_B275_7172_1380, // 197
    0xFFFF_7B22_0972_9579, // 198
    0xF289_8232_95B2_7257, // 199
    0xFFFF_FFF5_7353_2A52, // 200
    0xFFFF_52A5_7825_8028, // 201
    0xFFFF_2A37_353A_5109, // 202
    0xF257_52A2_7812_9289, // 203
    0xFFFF_FFFF_FF57_3531, // 204
    0xFFFF_FFF5_7117_0780, // 205
    0xFFFF_FFF7_3553_9309, // 206
    0xFFFF_FFFF_FF79_5789, // 207
    0xFFFF_FFF8_BA8A_5485, // 208
    0xFFFF_03BB_A50B_5405, // 209
    0xFFFF_54AB_A8A4_8910, // 210
    0xF413_1494_3B54_A4BA, // 211
    0xFFFF_8548_B258_2152, // 212
    0xFB15_1B2B_543B_0B40, // 213
    0xF58B_8545_B295_0520, // 214
    0xFFFF_FFFF_FF3B_2549, // 215
    0xFFFF_4835_4325_3A52, // 216
    0xFFFF_FFF0_2442_52A5, // 217
    0xF910_8545_83A5_32A3, // 218
    0xFFFF_2492_9142_52A5, // 219
    0xFFFF_FFF1_5335_8548, // 220
    0xFFFF_FFFF_FF50_1540, // 221
    0xFFFF_5305_0935_8548, // 222
    0xFFFF_FFFF_FFFF_F549, // 223
    0xFFFF_FFFB_A9B9_47B4, // 224
    0xFFFF_BA97_B979_4380, // 225
    0xFFFF_B470_414B_1BA1, // 226
    0xF4BA_B474_A184_3413, // 227
    0xFFFF_219B_294B_97B4, // 228
    0xF380_1B2B_197B_9479, // 229
    0xFFFF_FFF0_4224_B47B, // 230
    0xFFFF_4234_3824_B47B, // 231
    0xFFFF_9477_3297_2A92, // 232
    0xF702_0787_2A47_97A9, // 233
    0xFA04_0A1A_472A_3A73, // 234
    0xFFFF_FFFF_FF47_82A1, // 235
    0xFFFF_FFF3_1771_4194, // 236
    0xFFFF_1781_8071_4194, // 237
    0xFFFF_FFFF_FF34_7304, // 238
    0xFFFF_FFFF_FFFF_F784, // 239
    0xFFFF_FFFF_FF8B_A8A9, // 240
    0xFFFF_FFFA_9BB9_3903, // 241
    0xFFFF_FFFB_A88A_0A10, // 242
    0xFFFF_FFFF_FFA3_BA13, // 243
    0xFFFF_FFF8_B99B_1B21, // 244
    0xFFFF_9B29_21B9_3903, // 245
    0xFFFF_FFFF_FFB0_8B20, // 246
    0xFFFF_FFFF_FFFF_FB23, // 247
    0xFFFF_FFF9_8AA8_2832, // 248
    0xFFFF_FFFF_FF29_02A9, // 249
    0xFFFF_8A18_10A8_2832, // 250
    0xFFFF_FFFF_FFFF_F2A1, // 251
    0xFFFF_FFFF_FF81_9831, // 252
    0xFFFF_FFFF_FFFF_F190, // 253
    0xFFFF_FFFF_FFFF_F830, // 254
    0xFFFF_FFFF_FFFF_FFFF, // 255
];

} // verus!
