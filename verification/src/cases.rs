//! The case table: for each of the 256 sign patterns of a cell's corners,
//! the triangles that approximate the surface inside the cell.

use crate::arrayvec_specs::{triangle_list, tris_new, tris_push};
use crate::cube::EDGES;
use arrayvec::ArrayVec;
use vstd::prelude::*;

verus! {

/// The sign pattern of a cell: bit `i` is set exactly if the sample at corner
/// `i` is inside.
#[derive(Clone, Copy, Debug, PartialEq, Eq, Structural)]
pub struct CaseIndex(pub u8);

/// One entry of the case table: at most five triangles, each naming the three
/// edges of the cell that its corners lie on.
pub struct Case {
    pub tris: ArrayVec<[u8; 3], 5>,
}

impl View for Case {
    type V = Seq<[u8; 3]>;

    open spec fn view(&self) -> Seq<[u8; 3]> {
        triangle_list(self.tris)
    }
}

/// Whether corner `corner` is inside under sign pattern `case`.
pub open spec fn corner_inside(case: u8, corner: int) -> bool {
    (case >> (corner as u8)) & 1 == 1
}

/// Whether the two corners that edge `edge` joins differ in sign under `case`,
/// so that the surface crosses the edge.
pub open spec fn edge_crosses(case: u8, edge: int) -> bool {
    corner_inside(case, EDGES[edge].0 as int) != corner_inside(case, EDGES[edge].1 as int)
}

/// The table itself, one packed word per sign pattern. Read as sixteen
/// hexadecimal digits, the first is the number of triangles and the next
/// fifteen are their edges in order, three to a triangle; unused digits are 0.
pub open spec fn case_code(case: u8) -> u64 {
    match case {
        0 => 0x0_000_000_000_000_000,
        1 => 0x1_083_000_000_000_000,
        2 => 0x1_019_000_000_000_000,
        3 => 0x2_183_981_000_000_000,
        4 => 0x1_12a_000_000_000_000,
        5 => 0x2_083_12a_000_000_000,
        6 => 0x2_92a_029_000_000_000,
        7 => 0x3_283_2a8_a98_000_000,
        8 => 0x1_3b2_000_000_000_000,
        9 => 0x2_0b2_8b0_000_000_000,
        10 => 0x2_190_23b_000_000_000,
        11 => 0x3_1b2_19b_98b_000_000,
        12 => 0x2_3a1_ba3_000_000_000,
        13 => 0x3_0a1_08a_8ba_000_000,
        14 => 0x3_390_3b9_ba9_000_000,
        15 => 0x2_98a_a8b_000_000_000,
        16 => 0x1_478_000_000_000_000,
        17 => 0x2_430_734_000_000_000,
        18 => 0x2_019_847_000_000_000,
        19 => 0x3_419_471_731_000_000,
        20 => 0x2_12a_847_000_000_000,
        21 => 0x3_347_304_12a_000_000,
        22 => 0x3_92a_902_847_000_000,
        23 => 0x4_2a9_297_273_794_000,
        24 => 0x2_847_3b2_000_000_000,
        25 => 0x3_b47_b24_204_000_000,
        26 => 0x3_901_847_23b_000_000,
        27 => 0x4_47b_94b_9b2_921_000,
        28 => 0x3_3a1_3ba_784_000_000,
        29 => 0x4_1ba_14b_104_7b4_000,
        30 => 0x4_478_90b_9ba_b03_000,
        31 => 0x3_47b_4b9_9ba_000_000,
        32 => 0x1_954_000_000_000_000,
        33 => 0x2_954_083_000_000_000,
        34 => 0x2_054_150_000_000_000,
        35 => 0x3_854_835_315_000_000,
        36 => 0x2_12a_954_000_000_000,
        37 => 0x3_308_12a_495_000_000,
        38 => 0x3_52a_542_402_000_000,
        39 => 0x4_2a5_325_354_348_000,
        40 => 0x2_954_23b_000_000_000,
        41 => 0x3_0b2_08b_495_000_000,
        42 => 0x3_054_015_23b_000_000,
        43 => 0x4_215_258_28b_485_000,
        44 => 0x3_a3b_a13_954_000_000,
        45 => 0x4_495_081_8a1_8ba_000,
        46 => 0x4_540_50b_5ba_b03_000,
        47 => 0x3_548_58a_a8b_000_000,
        48 => 0x2_978_579_000_000_000,
        49 => 0x3_930_953_573_000_000,
        50 => 0x3_078_017_157_000_000,
        51 => 0x2_153_357_000_000_000,
        52 => 0x3_978_957_a12_000_000,
        53 => 0x4_a12_950_530_573_000,
        54 => 0x4_802_825_857_a52_000,
        55 => 0x3_2a5_253_357_000_000,
        56 => 0x3_795_789_3b2_000_000,
        57 => 0x4_957_972_920_27b_000,
        58 => 0x4_23b_018_178_157_000,
        59 => 0x3_b21_b17_715_000_000,
        60 => 0x4_958_857_a13_a3b_000,
        61 => 0x5_570_509_7b0_10a_ba0,
        62 => 0x5_ba0_b03_a50_807_570,
        63 => 0x2_ba5_7b5_000_000_000,
        64 => 0x1_a65_000_000_000_000,
        65 => 0x2_083_5a6_000_000_000,
        66 => 0x2_901_5a6_000_000_000,
        67 => 0x3_183_198_5a6_000_000,
        68 => 0x2_165_261_000_000_000,
        69 => 0x3_165_126_308_000_000,
        70 => 0x3_965_906_026_000_000,
        71 => 0x4_598_582_526_328_000,
        72 => 0x2_23b_a65_000_000_000,
        73 => 0x3_b08_b20_a65_000_000,
        74 => 0x3_019_23b_5a6_000_000,
        75 => 0x4_5a6_192_9b2_98b_000,
        76 => 0x3_63b_653_513_000_000,
        77 => 0x4_08b_0b5_051_5b6_000,
        78 => 0x4_3b6_036_065_059_000,
        79 => 0x3_659_69b_b98_000_000,
        80 => 0x2_5a6_478_000_000_000,
        81 => 0x3_430_473_65a_000_000,
        82 => 0x3_190_5a6_847_000_000,
        83 => 0x4_a65_197_173_794_000,
        84 => 0x3_612_651_478_000_000,
        85 => 0x4_125_526_304_347_000,
        86 => 0x4_847_905_065_026_000,
        87 => 0x5_739_794_329_596_269,
        88 => 0x3_3b2_784_a65_000_000,
        89 => 0x4_5a6_472_420_27b_000,
        90 => 0x4_019_478_23b_5a6_000,
        91 => 0x5_921_9b2_94b_7b4_5a6,
        92 => 0x4_847_3b5_351_5b6_000,
        93 => 0x5_51b_5b6_10b_7b4_04b,
        94 => 0x5_059_065_036_b63_847,
        95 => 0x4_659_69b_479_7b9_000,
        96 => 0x2_a49_64a_000_000_000,
        97 => 0x3_4a6_49a_083_000_000,
        98 => 0x3_a01_a60_640_000_000,
        99 => 0x4_831_816_864_61a_000,
        100 => 0x3_149_124_264_000_000,
        101 => 0x4_308_129_249_264_000,
        102 => 0x2_024_426_000_000_000,
        103 => 0x3_832_824_426_000_000,
        104 => 0x3_a49_a64_b23_000_000,
        105 => 0x4_082_28b_49a_4a6_000,
        106 => 0x4_3b2_016_064_61a_000,
        107 => 0x5_641_61a_481_21b_8b1,
        108 => 0x4_964_936_913_b63_000,
        109 => 0x5_8b1_810_b61_914_641,
        110 => 0x3_3b6_360_064_000_000,
        111 => 0x2_648_b68_000_000_000,
        112 => 0x3_7a6_78a_89a_000_000,
        113 => 0x4_073_0a7_09a_67a_000,
        114 => 0x4_a67_1a7_178_180_000,
        115 => 0x3_a67_a71_173_000_000,
        116 => 0x4_126_168_189_867_000,
        117 => 0x5_269_291_679_093_739,
        118 => 0x3_780_706_602_000_000,
        119 => 0x2_732_672_000_000_000,
        120 => 0x4_23b_a68_a89_867_000,
        121 => 0x5_207_27b_097_67a_9a7,
        122 => 0x5_180_178_1a7_67a_23b,
        123 => 0x4_b21_b17_a61_671_000,
        124 => 0x5_896_867_916_b63_136,
        125 => 0x2_091_b67_000_000_000,
        126 => 0x4_780_706_3b0_b60_000,
        127 => 0x1_7b6_000_000_000_000,
        128 => 0x1_76b_000_000_000_000,
        129 => 0x2_308_b76_000_000_000,
        130 => 0x2_019_b76_000_000_000,
        131 => 0x3_819_831_b76_000_000,
        132 => 0x2_a12_6b7_000_000_000,
        133 => 0x3_12a_308_6b7_000_000,
        134 => 0x3_290_2a9_6b7_000_000,
        135 => 0x4_6b7_2a3_a83_a98_000,
        136 => 0x2_723_627_000_000_000,
        137 => 0x3_708_760_620_000_000,
        138 => 0x3_276_237_019_000_000,
        139 => 0x4_162_186_198_876_000,
        140 => 0x3_a76_a17_137_000_000,
        141 => 0x4_a76_17a_187_108_000,
        142 => 0x4_037_07a_0a9_6a7_000,
        143 => 0x3_76a_7a8_8a9_000_000,
        144 => 0x2_684_b86_000_000_000,
        145 => 0x3_36b_306_046_000_000,
        146 => 0x3_86b_846_901_000_000,
        147 => 0x4_946_963_931_b36_000,
        148 => 0x3_684_6b8_2a1_000_000,
        149 => 0x4_12a_30b_06b_046_000,
        150 => 0x4_4b8_46b_029_2a9_000,
        151 => 0x5_a93_a32_943_b36_463,
        152 => 0x3_823_842_462_000_000,
        153 => 0x2_042_462_000_000_000,
        154 => 0x4_190_234_246_438_000,
        155 => 0x3_194_142_246_000_000,
        156 => 0x4_813_861_846_6a1_000,
        157 => 0x3_a10_a06_604_000_000,
        158 => 0x5_463_438_6a3_039_a93,
        159 => 0x2_a94_6a4_000_000_000,
        160 => 0x2_495_76b_000_000_000,
        161 => 0x3_083_495_b76_000_000,
        162 => 0x3_501_540_76b_000_000,
        163 => 0x4_b76_834_354_315_000,
        164 => 0x3_954_a12_76b_000_000,
        165 => 0x4_6b7_12a_083_495_000,
        166 => 0x4_76b_54a_42a_402_000,
        167 => 0x5_348_354_325_a52_b76,
        168 => 0x3_723_762_549_000_000,
        169 => 0x4_954_086_062_687_000,
        170 => 0x4_362_376_150_540_000,
        171 => 0x5_628_687_218_485_158,
        172 => 0x4_954_a16_176_137_000,
        173 => 0x5_16a_176_107_870_954,
        174 => 0x5_40a_4a5_03a_6a7_37a,
        175 => 0x4_76a_7a8_54a_48a_000,
        176 => 0x3_695_6b9_b89_000_000,
        177 => 0x4_36b_063_056_095_000,
        178 => 0x4_0b8_05b_015_56b_000,
        179 => 0x3_6b3_635_531_000_000,
        180 => 0x4_12a_95b_9b8_b56_000,
        181 => 0x5_0b3_06b_096_569_12a,
        182 => 0x5_b85_b56_805_a52_025,
        183 => 0x4_6b3_635_2a3_a53_000,
        184 => 0x4_589_528_562_382_000,
        185 => 0x3_956_960_062_000_000,
        186 => 0x5_158_180_568_382_628,
        187 => 0x2_156_216_000_000_000,
        188 => 0x5_136_16a_386_569_896,
        189 => 0x4_a10_a06_950_560_000,
        190 => 0x2_038_56a_000_000_000,
        191 => 0x1_a56_000_000_000_000,
        192 => 0x2_b5a_75b_000_000_000,
        193 => 0x3_b5a_b75_830_000_000,
        194 => 0x3_5b7_5ab_190_000_000,
        195 => 0x4_a75_ab7_981_831_000,
        196 => 0x3_b12_b71_751_000_000,
        197 => 0x4_083_127_175_72b_000,
        198 => 0x4_975_927_902_2b7_000,
        199 => 0x5_752_72b_592_328_982,
        200 => 0x3_25a_235_375_000_000,
        201 => 0x4_820_852_875_a25_000,
        202 => 0x4_901_5a3_537_3a2_000,
        203 => 0x5_982_921_872_a25_752,
        204 => 0x2_135_375_000_000_000,
        205 => 0x3_087_071_175_000_000,
        206 => 0x3_903_935_537_000_000,
        207 => 0x2_987_597_000_000_000,
        208 => 0x3_584_5a8_ab8_000_000,
        209 => 0x4_504_5b0_5ab_b30_000,
        210 => 0x4_019_84a_8ab_a45_000,
        211 => 0x5_ab4_a45_b34_941_314,
        212 => 0x4_251_285_2b8_458_000,
        213 => 0x5_04b_0b3_45b_2b1_51b,
        214 => 0x5_025_059_2b5_458_b85,
        215 => 0x2_945_2b3_000_000_000,
        216 => 0x4_25a_352_345_384_000,
        217 => 0x3_5a2_524_420_000_000,
        218 => 0x5_3a2_35a_385_458_019,
        219 => 0x4_5a2_524_192_942_000,
        220 => 0x3_845_853_351_000_000,
        221 => 0x2_045_105_000_000_000,
        222 => 0x4_845_853_905_035_000,
        223 => 0x1_945_000_000_000_000,
        224 => 0x3_4b7_49b_9ab_000_000,
        225 => 0x4_083_497_9b7_9ab_000,
        226 => 0x4_1ab_1b4_140_74b_000,
        227 => 0x5_314_348_1a4_74b_ab4,
        228 => 0x4_4b7_9b4_92b_912_000,
        229 => 0x5_974_9b7_91b_2b1_083,
        230 => 0x3_b74_b42_240_000_000,
        231 => 0x4_b74_b42_834_324_000,
        232 => 0x4_29a_279_237_749_000,
        233 => 0x5_9a7_974_a27_870_207,
        234 => 0x5_37a_3a2_74a_1a0_40a,
        235 => 0x2_1a2_874_000_000_000,
        236 => 0x3_491_417_713_000_000,
        237 => 0x4_491_417_081_871_000,
        238 => 0x2_403_743_000_000_000,
        239 => 0x1_487_000_000_000_000,
        240 => 0x2_9a8_ab8_000_000_000,
        241 => 0x3_309_39b_b9a_000_000,
        242 => 0x3_01a_0a8_8ab_000_000,
        243 => 0x2_31a_b3a_000_000_000,
        244 => 0x3_12b_1b9_9b8_000_000,
        245 => 0x4_309_39b_129_2b9_000,
        246 => 0x2_02b_80b_000_000_000,
        247 => 0x1_32b_000_000_000_000,
        248 => 0x3_238_28a_a89_000_000,
        249 => 0x2_9a2_092_000_000_000,
        250 => 0x4_238_28a_018_1a8_000,
        251 => 0x1_1a2_000_000_000_000,
        252 => 0x2_138_918_000_000_000,
        253 => 0x1_091_000_000_000_000,
        254 => 0x1_038_000_000_000_000,
        255 => 0x0_000_000_000_000_000,
    }
}

/// The same words as `case_code`, for lookup at run time.
const CASE_CODES: [u64; 256] = [
    0x0_000_000_000_000_000,
    0x1_083_000_000_000_000,
    0x1_019_000_000_000_000,
    0x2_183_981_000_000_000,
    0x1_12a_000_000_000_000,
    0x2_083_12a_000_000_000,
    0x2_92a_029_000_000_000,
    0x3_283_2a8_a98_000_000,
    0x1_3b2_000_000_000_000,
    0x2_0b2_8b0_000_000_000,
    0x2_190_23b_000_000_000,
    0x3_1b2_19b_98b_000_000,
    0x2_3a1_ba3_000_000_000,
    0x3_0a1_08a_8ba_000_000,
    0x3_390_3b9_ba9_000_000,
    0x2_98a_a8b_000_000_000,
    0x1_478_000_000_000_000,
    0x2_430_734_000_000_000,
    0x2_019_847_000_000_000,
    0x3_419_471_731_000_000,
    0x2_12a_847_000_000_000,
    0x3_347_304_12a_000_000,
    0x3_92a_902_847_000_000,
    0x4_2a9_297_273_794_000,
    0x2_847_3b2_000_000_000,
    0x3_b47_b24_204_000_000,
    0x3_901_847_23b_000_000,
    0x4_47b_94b_9b2_921_000,
    0x3_3a1_3ba_784_000_000,
    0x4_1ba_14b_104_7b4_000,
    0x4_478_90b_9ba_b03_000,
    0x3_47b_4b9_9ba_000_000,
    0x1_954_000_000_000_000,
    0x2_954_083_000_000_000,
    0x2_054_150_000_000_000,
    0x3_854_835_315_000_000,
    0x2_12a_954_000_000_000,
    0x3_308_12a_495_000_000,
    0x3_52a_542_402_000_000,
    0x4_2a5_325_354_348_000,
    0x2_954_23b_000_000_000,
    0x3_0b2_08b_495_000_000,
    0x3_054_015_23b_000_000,
    0x4_215_258_28b_485_000,
    0x3_a3b_a13_954_000_000,
    0x4_495_081_8a1_8ba_000,
    0x4_540_50b_5ba_b03_000,
    0x3_548_58a_a8b_000_000,
    0x2_978_579_000_000_000,
    0x3_930_953_573_000_000,
    0x3_078_017_157_000_000,
    0x2_153_357_000_000_000,
    0x3_978_957_a12_000_000,
    0x4_a12_950_530_573_000,
    0x4_802_825_857_a52_000,
    0x3_2a5_253_357_000_000,
    0x3_795_789_3b2_000_000,
    0x4_957_972_920_27b_000,
    0x4_23b_018_178_157_000,
    0x3_b21_b17_715_000_000,
    0x4_958_857_a13_a3b_000,
    0x5_570_509_7b0_10a_ba0,
    0x5_ba0_b03_a50_807_570,
    0x2_ba5_7b5_000_000_000,
    0x1_a65_000_000_000_000,
    0x2_083_5a6_000_000_000,
    0x2_901_5a6_000_000_000,
    0x3_183_198_5a6_000_000,
    0x2_165_261_000_000_000,
    0x3_165_126_308_000_000,
    0x3_965_906_026_000_000,
    0x4_598_582_526_328_000,
    0x2_23b_a65_000_000_000,
    0x3_b08_b20_a65_000_000,
    0x3_019_23b_5a6_000_000,
    0x4_5a6_192_9b2_98b_000,
    0x3_63b_653_513_000_000,
    0x4_08b_0b5_051_5b6_000,
    0x4_3b6_036_065_059_000,
    0x3_659_69b_b98_000_000,
    0x2_5a6_478_000_000_000,
    0x3_430_473_65a_000_000,
    0x3_190_5a6_847_000_000,
    0x4_a65_197_173_794_000,
    0x3_612_651_478_000_000,
    0x4_125_526_304_347_000,
    0x4_847_905_065_026_000,
    0x5_739_794_329_596_269,
    0x3_3b2_784_a65_000_000,
    0x4_5a6_472_420_27b_000,
    0x4_019_478_23b_5a6_000,
    0x5_921_9b2_94b_7b4_5a6,
    0x4_847_3b5_351_5b6_000,
    0x5_51b_5b6_10b_7b4_04b,
    0x5_059_065_036_b63_847,
    0x4_659_69b_479_7b9_000,
    0x2_a49_64a_000_000_000,
    0x3_4a6_49a_083_000_000,
    0x3_a01_a60_640_000_000,
    0x4_831_816_864_61a_000,
    0x3_149_124_264_000_000,
    0x4_308_129_249_264_000,
    0x2_024_426_000_000_000,
    0x3_832_824_426_000_000,
    0x3_a49_a64_b23_000_000,
    0x4_082_28b_49a_4a6_000,
    0x4_3b2_016_064_61a_000,
    0x5_641_61a_481_21b_8b1,
    0x4_964_936_913_b63_000,
    0x5_8b1_810_b61_914_641,
    0x3_3b6_360_064_000_000,
    0x2_648_b68_000_000_000,
    0x3_7a6_78a_89a_000_000,
    0x4_073_0a7_09a_67a_000,
    0x4_a67_1a7_178_180_000,
    0x3_a67_a71_173_000_000,
    0x4_126_168_189_867_000,
    0x5_269_291_679_093_739,
    0x3_780_706_602_000_000,
    0x2_732_672_000_000_000,
    0x4_23b_a68_a89_867_000,
    0x5_207_27b_097_67a_9a7,
    0x5_180_178_1a7_67a_23b,
    0x4_b21_b17_a61_671_000,
    0x5_896_867_916_b63_136,
    0x2_091_b67_000_000_000,
    0x4_780_706_3b0_b60_000,
    0x1_7b6_000_000_000_000,
    0x1_76b_000_000_000_000,
    0x2_308_b76_000_000_000,
    0x2_019_b76_000_000_000,
    0x3_819_831_b76_000_000,
    0x2_a12_6b7_000_000_000,
    0x3_12a_308_6b7_000_000,
    0x3_290_2a9_6b7_000_000,
    0x4_6b7_2a3_a83_a98_000,
    0x2_723_627_000_000_000,
    0x3_708_760_620_000_000,
    0x3_276_237_019_000_000,
    0x4_162_186_198_876_000,
    0x3_a76_a17_137_000_000,
    0x4_a76_17a_187_108_000,
    0x4_037_07a_0a9_6a7_000,
    0x3_76a_7a8_8a9_000_000,
    0x2_684_b86_000_000_000,
    0x3_36b_306_046_000_000,
    0x3_86b_846_901_000_000,
    0x4_946_963_931_b36_000,
    0x3_684_6b8_2a1_000_000,
    0x4_12a_30b_06b_046_000,
    0x4_4b8_46b_029_2a9_000,
    0x5_a93_a32_943_b36_463,
    0x3_823_842_462_000_000,
    0x2_042_462_000_000_000,
    0x4_190_234_246_438_000,
    0x3_194_142_246_000_000,
    0x4_813_861_846_6a1_000,
    0x3_a10_a06_604_000_000,
    0x5_463_438_6a3_039_a93,
    0x2_a94_6a4_000_000_000,
    0x2_495_76b_000_000_000,
    0x3_083_495_b76_000_000,
    0x3_501_540_76b_000_000,
    0x4_b76_834_354_315_000,
    0x3_954_a12_76b_000_000,
    0x4_6b7_12a_083_495_000,
    0x4_76b_54a_42a_402_000,
    0x5_348_354_325_a52_b76,
    0x3_723_762_549_000_000,
    0x4_954_086_062_687_000,
    0x4_362_376_150_540_000,
    0x5_628_687_218_485_158,
    0x4_954_a16_176_137_000,
    0x5_16a_176_107_870_954,
    0x5_40a_4a5_03a_6a7_37a,
    0x4_76a_7a8_54a_48a_000,
    0x3_695_6b9_b89_000_000,
    0x4_36b_063_056_095_000,
    0x4_0b8_05b_015_56b_000,
    0x3_6b3_635_531_000_000,
    0x4_12a_95b_9b8_b56_000,
    0x5_0b3_06b_096_569_12a,
    0x5_b85_b56_805_a52_025,
    0x4_6b3_635_2a3_a53_000,
    0x4_589_528_562_382_000,
    0x3_956_960_062_000_000,
    0x5_158_180_568_382_628,
    0x2_156_216_000_000_000,
    0x5_136_16a_386_569_896,
    0x4_a10_a06_950_560_000,
    0x2_038_56a_000_000_000,
    0x1_a56_000_000_000_000,
    0x2_b5a_75b_000_000_000,
    0x3_b5a_b75_830_000_000,
    0x3_5b7_5ab_190_000_000,
    0x4_a75_ab7_981_831_000,
    0x3_b12_b71_751_000_000,
    0x4_083_127_175_72b_000,
    0x4_975_927_902_2b7_000,
    0x5_752_72b_592_328_982,
    0x3_25a_235_375_000_000,
    0x4_820_852_875_a25_000,
    0x4_901_5a3_537_3a2_000,
    0x5_982_921_872_a25_752,
    0x2_135_375_000_000_000,
    0x3_087_071_175_000_000,
    0x3_903_935_537_000_000,
    0x2_987_597_000_000_000,
    0x3_584_5a8_ab8_000_000,
    0x4_504_5b0_5ab_b30_000,
    0x4_019_84a_8ab_a45_000,
    0x5_ab4_a45_b34_941_314,
    0x4_251_285_2b8_458_000,
    0x5_04b_0b3_45b_2b1_51b,
    0x5_025_059_2b5_458_b85,
    0x2_945_2b3_000_000_000,
    0x4_25a_352_345_384_000,
    0x3_5a2_524_420_000_000,
    0x5_3a2_35a_385_458_019,
    0x4_5a2_524_192_942_000,
    0x3_845_853_351_000_000,
    0x2_045_105_000_000_000,
    0x4_845_853_905_035_000,
    0x1_945_000_000_000_000,
    0x3_4b7_49b_9ab_000_000,
    0x4_083_497_9b7_9ab_000,
    0x4_1ab_1b4_140_74b_000,
    0x5_314_348_1a4_74b_ab4,
    0x4_4b7_9b4_92b_912_000,
    0x5_974_9b7_91b_2b1_083,
    0x3_b74_b42_240_000_000,
    0x4_b74_b42_834_324_000,
    0x4_29a_279_237_749_000,
    0x5_9a7_974_a27_870_207,
    0x5_37a_3a2_74a_1a0_40a,
    0x2_1a2_874_000_000_000,
    0x3_491_417_713_000_000,
    0x4_491_417_081_871_000,
    0x2_403_743_000_000_000,
    0x1_487_000_000_000_000,
    0x2_9a8_ab8_000_000_000,
    0x3_309_39b_b9a_000_000,
    0x3_01a_0a8_8ab_000_000,
    0x2_31a_b3a_000_000_000,
    0x3_12b_1b9_9b8_000_000,
    0x4_309_39b_129_2b9_000,
    0x2_02b_80b_000_000_000,
    0x1_32b_000_000_000_000,
    0x3_238_28a_a89_000_000,
    0x2_9a2_092_000_000_000,
    0x4_238_28a_018_1a8_000,
    0x1_1a2_000_000_000_000,
    0x2_138_918_000_000_000,
    0x1_091_000_000_000_000,
    0x1_038_000_000_000_000,
    0x0_000_000_000_000_000,
];

/// Digit `i` of the fifteen edge digits of a packed word, counted from the
/// most significant one.
pub open spec fn packed_edge(code: u64, i: u64) -> u64 {
    (code >> ((56 - 4 * i) as u64)) & 0xf
}

/// The number of triangles in the entry for `case`.
pub open spec fn triangle_count(case: u8) -> nat {
    (case_code(case) >> 60) as nat
}

/// Edge `i` of the entry for `case`, where the edges of all its triangles are
/// counted in order: triangle `t` owns edges `3t`, `3t + 1` and `3t + 2`.
pub open spec fn table_edge(case: u8, i: int) -> u8 {
    packed_edge(case_code(case), i as u64) as u8
}

/// The entry for `case`: its triangles, first to last.
pub open spec fn case_triangles(case: u8) -> Seq<[u8; 3]> {
    Seq::new(
        triangle_count(case),
        |t: int| [table_edge(case, 3 * t), table_edge(case, 3 * t + 1), table_edge(case, 3 * t + 2)],
    )
}

/// The first corner of each edge of `EDGES`, written as a chain of
/// comparisons on a machine word so that it can stand in bit-vector proofs.
spec fn first_corner(edge: u64) -> u8 {
    if edge == 0 { 0 } else if edge == 1 { 1 } else if edge == 2 { 2 } else if edge == 3 { 3 }
    else if edge == 4 { 4 } else if edge == 5 { 5 } else if edge == 6 { 6 } else if edge == 7 { 7 }
    else if edge == 8 { 0 } else if edge == 9 { 1 } else if edge == 10 { 2 } else { 3 }
}

/// The second corner of each edge of `EDGES`, in the same form.
spec fn second_corner(edge: u64) -> u8 {
    if edge == 0 { 1 } else if edge == 1 { 2 } else if edge == 2 { 3 } else if edge == 3 { 0 }
    else if edge == 4 { 5 } else if edge == 5 { 6 } else if edge == 6 { 7 } else if edge == 7 { 4 }
    else if edge == 8 { 4 } else if edge == 9 { 5 } else if edge == 10 { 6 } else { 7 }
}

/// `edge_crosses`, stated on machine words only.
spec fn crosses_bits(case: u8, edge: u64) -> bool {
    ((case >> first_corner(edge)) & 1 == 1) != ((case >> second_corner(edge)) & 1 == 1)
}

proof fn lemma_count_bits(case: u8)
    by (bit_vector)
    ensures
        case_code(case) >> 60 <= 5,
{
}

#[verifier::rlimit(100)]
proof fn lemma_edge_bits(case: u8, i: u64)
    by (bit_vector)
    requires
        i < 15,
    ensures
        packed_edge(case_code(case), i) < 12,
        i < 3 * (case_code(case) >> 60) ==> crosses_bits(case, packed_edge(case_code(case), i)),
{
}

proof fn lemma_corner_chains(edge: u64)
    requires
        edge < 12,
    ensures
        EDGES[edge as int].0 == first_corner(edge),
        EDGES[edge as int].1 == second_corner(edge),
{
}

/// No entry holds more than five triangles.
pub proof fn lemma_triangle_count(case: u8)
    ensures
        triangle_count(case) <= 5,
        case_triangles(case).len() == triangle_count(case),
{
    lemma_count_bits(case);
}

/// The table is consistent with the cube: every edge that a triangle of the
/// entry for `case` names is one of the twelve edges, and it joins two
/// corners that differ in sign under `case`.
pub proof fn lemma_table_edges_cross(case: u8, t: int, k: int)
    requires
        0 <= t < triangle_count(case),
        0 <= k < 3,
    ensures
        case_triangles(case)[t][k] == table_edge(case, 3 * t + k),
        case_triangles(case)[t][k] < 12,
        edge_crosses(case, case_triangles(case)[t][k] as int),
{
    lemma_count_bits(case);
    let i = (3 * t + k) as u64;
    lemma_edge_bits(case, i);
    lemma_corner_chains(packed_edge(case_code(case), i));
}

/// Whether triangle `t` of a packed word names `edge`.
spec fn triangle_names(code: u64, t: u64, edge: u64) -> bool {
    &&& t < code >> 60
    &&& {
        ||| packed_edge(code, (3 * t) as u64) == edge
        ||| packed_edge(code, (3 * t + 1) as u64) == edge
        ||| packed_edge(code, (3 * t + 2) as u64) == edge
    }
}

#[verifier::rlimit(100)]
proof fn lemma_crossed_bits(case: u8, edge: u64)
    by (bit_vector)
    requires
        edge < 12,
        crosses_bits(case, edge),
    ensures
        ({
            ||| triangle_names(case_code(case), 0, edge)
            ||| triangle_names(case_code(case), 1, edge)
            ||| triangle_names(case_code(case), 2, edge)
            ||| triangle_names(case_code(case), 3, edge)
            ||| triangle_names(case_code(case), 4, edge)
        }),
{
}

/// The table leaves no hole: every edge of the cell that joins two corners
/// of differing sign under `case` is named by a triangle of the entry for
/// `case`.
pub proof fn lemma_crossed_edges_are_used(case: u8, edge: int)
    requires
        0 <= edge < 12,
        edge_crosses(case, edge),
    ensures
        exists|t: int, k: int|
            0 <= t < triangle_count(case) && 0 <= k < 3 && #[trigger] case_triangles(case)[t][k]
                == edge,
{
    let code = case_code(case);
    lemma_corner_chains(edge as u64);
    lemma_crossed_bits(case, edge as u64);
    let t: int = if triangle_names(code, 0, edge as u64) {
        0
    } else if triangle_names(code, 1, edge as u64) {
        1
    } else if triangle_names(code, 2, edge as u64) {
        2
    } else if triangle_names(code, 3, edge as u64) {
        3
    } else {
        4
    };
    assert(triangle_names(code, t as u64, edge as u64));
    let k: int = if packed_edge(code, (3 * t) as u64) == edge {
        0
    } else if packed_edge(code, (3 * t + 1) as u64) == edge {
        1
    } else {
        2
    };
    lemma_table_edges_cross(case, t, k);
    assert(case_triangles(case)[t][k] == edge);
}

/// The pattern with every corner outside and the pattern with every corner
/// inside give no triangles.
pub proof fn lemma_uniform_cases_are_empty()
    ensures
        triangle_count(0) == 0,
        triangle_count(255) == 0,
        case_triangles(0) == Seq::<[u8; 3]>::empty(),
        case_triangles(255) == Seq::<[u8; 3]>::empty(),
{
    assert(case_code(0) >> 60 == 0 && case_code(255) >> 60 == 0) by (bit_vector);
}

proof fn lemma_codes(case: u8)
    ensures
        CASE_CODES[case as int] == case_code(case),
{
}

proof fn lemma_nibble(x: u64)
    by (bit_vector)
    ensures
        x & 0xf < 16,
{
}

/// Looks up the entry for `case`. Every pattern has an entry; the two uniform
/// ones are empty.
pub fn triangles_for(case: CaseIndex) -> (entry: Case)
    ensures
        entry@ == case_triangles(case.0),
{
    let code = CASE_CODES[case.0 as usize];
    proof {
        lemma_codes(case.0);
        lemma_count_bits(case.0);
    }
    let count = (code >> 60) as usize;
    let mut tris = tris_new();
    let mut t: usize = 0;
    while t < count
        invariant
            t <= count <= 5,
            count == triangle_count(case.0),
            code == case_code(case.0),
            triangle_list(tris) == case_triangles(case.0).take(t as int),
        decreases count - t,
    {
        let shift: u64 = 56 - 12 * (t as u64);
        let a = (code >> shift) & 0xf;
        let b = (code >> (shift - 4)) & 0xf;
        let c = (code >> (shift - 8)) & 0xf;
        proof {
            lemma_nibble(code >> shift);
            lemma_nibble(code >> ((shift - 4) as u64));
            lemma_nibble(code >> ((shift - 8) as u64));
            assert(shift == (56 - 4 * ((3 * t) as u64)) as u64);
            assert(shift - 4 == (56 - 4 * ((3 * t + 1) as u64)) as u64);
            assert(shift - 8 == (56 - 4 * ((3 * t + 2) as u64)) as u64);
            assert(a == table_edge(case.0, 3 * t));
            assert(b == table_edge(case.0, 3 * t + 1));
            assert(c == table_edge(case.0, 3 * t + 2));
        }
        let tri = [a as u8, b as u8, c as u8];
        proof {
            assert(tri == case_triangles(case.0)[t as int]);
            assert(case_triangles(case.0).take(t as int).push(tri) == case_triangles(
                case.0,
            ).take(t + 1));
        }
        tris_push(&mut tris, tri);
        t += 1;
    }
    Case { tris }
}

} // verus!
