//! Precomputed lookup tables: envelope curve pairs, note phase increments,
//! single-cycle waveforms and octave filter coefficients.
//!
//! They were computed offline in double precision and rounded to nearest:
//! - envelope curves: setting `i` takes `T = 1 ms · 10000^(i/255)` seconds, i.e.
//!   `R = T · 48000` samples; with target ratio `r` (0.3 for attack, 0.0001 for
//!   decay/release), `coefficient = exp(ln(r / (1 + r)) / R)` and
//!   `base = final · (1 - coefficient)`, where `final` is `1.3` for attack
//!   (from 0 towards 1) and `-0.0001` for decay/release (from 1 towards 0);
//! - phase increments: `440 · 2^((n - 69) / 12) · 256 / 48000 · 2^24`;
//! - waveforms: `sin(2πi/256)`, `-1 + 2i/256`, `±1` by half cycle, and the
//!   triangle through 0, 1, 0, -1, each times 32768 and saturated to Q15;
//! - filters: second-order Butterworth sections by the bilinear transform at
//!   48 kHz: a low-pass at 88.4 Hz, band-passes one octave wide centred on
//!   125, 250, 500 and 1000 Hz, and a high-pass at 1414 Hz, halved before
//!   rounding to Q15.
use vstd::prelude::*;

verus! {

/// Bases of the attack curves, in Q31, indexed by the attack setting.
pub const RISE_BASES: [i32; 256] = [
    83994165, 81058206, 78223383, 75486315, 72843727, 70292448, 67829406, 65451627,
    63156232, 60940435, 58801536, 56736927, 54744081, 52820555, 50963983, 49172081,
    47442635, 45773507, 44162629, 42608001, 41107689, 39659824, 38262599, 36914268,
    35613142, 34357591, 33146039, 31976961, 30848886, 29760392, 28710106, 27696699,
    26718890, 25775441, 24865155, 23986877, 23139492, 22321921, 21533125, 20772098,
    20037869, 19329503, 18646094, 17986769, 17350685, 16737028, 16145011, 15573875,
    15022890, 14491346, 13978562, 13483880, 13006662, 12546296, 12102189, 11673769,
    11260485, 10861803, 10477210, 10106210, 9748324, 9403091, 9070063, 8748812,
    8438922, 8139993, 7851638, 7573483, 7305169, 7046350, 6796689, 6555863,
    6323561, 6099481, 5883333, 5674837, 5473723, 5279729, 5092605, 4912106,
    4738000, 4570059, 4408067, 4251812, 4101092, 3955711, 3815481, 3680218,
    3549747, 3423899, 3302510, 3185422, 3072483, 2963546, 2858469, 2757117,
    2659356, 2565060, 2474106, 2386376, 2301756, 2220135, 2141407, 2065470,
    1992224, 1921576, 1853431, 1787703, 1724305, 1663154, 1604171, 1547280,
    1492406, 1439477, 1388425, 1339183, 1291688, 1245876, 1201689, 1159068,
    1117959, 1078308, 1040062, 1003173, 967592, 933273, 900171, 868243,
    837447, 807744, 779093, 751459, 724805, 699096, 674299, 650381,
    627312, 605061, 583599, 562898, 542932, 523673, 505098, 487181,
    469900, 453232, 437155, 421649, 406692, 392266, 378351, 364930,
    351985, 339500, 327457, 315841, 304637, 293831, 283408, 273355,
    263658, 254306, 245285, 236584, 228191, 220097, 212289, 204759,
    197495, 190489, 183732, 177214, 170928, 164865, 159016, 153375,
    147935, 142687, 137625, 132743, 128034, 123492, 119112, 114886,
    110811, 106880, 103089, 99432, 95904, 92502, 89221, 86056,
    83003, 80059, 77219, 74479, 71837, 69289, 66831, 64460,
    62174, 59968, 57841, 55789, 53810, 51901, 50060, 48284,
    46571, 44919, 43326, 41789, 40306, 38876, 37497, 36167,
    34884, 33647, 32453, 31302, 30191, 29120, 28087, 27091,
    26130, 25203, 24309, 23447, 22615, 21813, 21039, 20292,
    19573, 18878, 18209, 17563, 16940, 16339, 15759, 15200,
    14661, 14141, 13639, 13155, 12689, 12238, 11804, 11386,
    10982, 10592, 10216, 9854, 9504, 9167, 8842, 8528,
];

/// Coefficients of the attack curves, in Q31, indexed by the attack setting.
pub const RISE_COEFFICIENTS: [i32; 256] = [
    2082872752, 2085131182, 2087311815, 2089417252, 2091450012, 2093412534, 2095307182, 2097136243,
    2098901931, 2100606391, 2102251697, 2103839858, 2105372816, 2106852452, 2108280584, 2109658970,
    2110989313, 2112273258, 2113512395, 2114708263, 2115862349, 2116976091, 2118050880, 2119088058,
    2120088923, 2121054732, 2121986695, 2122885986, 2123753736, 2124591039, 2125398951, 2126178495,
    2126930656, 2127656386, 2128356606, 2129032204, 2129684039, 2130312939, 2130919706, 2131505111,
    2132069902, 2132614799, 2133140499, 2133647672, 2134136967, 2134609011, 2135064409, 2135503744,
    2135927579, 2136336459, 2136730908, 2137111433, 2137478523, 2137832651, 2138174272, 2138503826,
    2138821737, 2139128415, 2139424256, 2139709640, 2139984937, 2140250501, 2140506676, 2140753792,
    2140992169, 2141222115, 2141443927, 2141657892, 2141864287, 2142063379, 2142255426, 2142440676,
    2142619370, 2142791739, 2142958007, 2143118388, 2143273092, 2143422318, 2143566260, 2143705105,
    2143839033, 2143968218, 2144092827, 2144213023, 2144328962, 2144440793, 2144548663, 2144652711,
    2144753073, 2144849880, 2144943256, 2145033324, 2145120200, 2145203997, 2145284825, 2145362789,
    2145437989, 2145510525, 2145580489, 2145647974, 2145713067, 2145775852, 2145836412, 2145894825,
    2145951168, 2146005513, 2146057932, 2146108492, 2146157260, 2146204299, 2146249670, 2146293433,
    2146335644, 2146376358, 2146415629, 2146453507, 2146490042, 2146525282, 2146559272, 2146592057,
    2146623680, 2146654181, 2146683600, 2146711976, 2146739346, 2146765745, 2146791209, 2146815769,
    2146839458, 2146862307, 2146884345, 2146905603, 2146926106, 2146945882, 2146964956, 2146983355,
    2147001100, 2147018217, 2147034726, 2147050649, 2147066008, 2147080822, 2147095111, 2147108893,
    2147122186, 2147135008, 2147147375, 2147159303, 2147170808, 2147181905, 2147192609, 2147202932,
    2147212890, 2147222494, 2147231758, 2147240693, 2147249312, 2147257624, 2147265642, 2147273375,
    2147280834, 2147288028, 2147294968, 2147301661, 2147308116, 2147314343, 2147320349, 2147326141,
    2147331729, 2147337118, 2147342316, 2147347329, 2147352165, 2147356829, 2147361328, 2147365667,
    2147369852, 2147373889, 2147377782, 2147381538, 2147385160, 2147388654, 2147392024, 2147395274,
    2147398409, 2147401433, 2147404349, 2147407162, 2147409875, 2147412492, 2147415017, 2147417451,
    2147419799, 2147422064, 2147424249, 2147426356, 2147428388, 2147430349, 2147432240, 2147434063,
    2147435822, 2147437519, 2147439155, 2147440733, 2147442256, 2147443724, 2147445140, 2147446506,
    2147447824, 2147449095, 2147450321, 2147451503, 2147452643, 2147453743, 2147454804, 2147455827,
    2147456814, 2147457766, 2147458684, 2147459570, 2147460424, 2147461248, 2147462042, 2147462809,
    2147463548, 2147464261, 2147464949, 2147465612, 2147466252, 2147466869, 2147467464, 2147468038,
    2147468592, 2147469126, 2147469641, 2147470138, 2147470618, 2147471080, 2147471526, 2147471956,
    2147472370, 2147472770, 2147473156, 2147473529, 2147473888, 2147474234, 2147474568, 2147474890,
    2147475201, 2147475500, 2147475789, 2147476068, 2147476337, 2147476596, 2147476846, 2147477088,
];

/// Bases of the decay and release curves, in Q31, indexed by the decay/release setting.
pub const FALL_BASES: [i32; 256] = [
    -37495, -36284, -35108, -33967, -32860, -31785, -30742, -29731,
    -28750, -27799, -26878, -25985, -25119, -24280, -23468, -22681,
    -21919, -21181, -20467, -19775, -19106, -18458, -17831, -17225,
    -16638, -16071, -15522, -14991, -14477, -13981, -13501, -13037,
    -12588, -12154, -11735, -11330, -10939, -10560, -10195, -9841,
    -9500, -9170, -8852, -8544, -8247, -7960, -7683, -7415,
    -7156, -6907, -6665, -6433, -6208, -5991, -5781, -5579,
    -5383, -5195, -5012, -4837, -4667, -4503, -4345, -4192,
    -4045, -3903, -3766, -3633, -3505, -3382, -3263, -3148,
    -3037, -2930, -2827, -2727, -2631, -2538, -2449, -2362,
    -2279, -2199, -2121, -2046, -1974, -1904, -1837, -1772,
    -1709, -1649, -1591, -1534, -1480, -1428, -1377, -1329,
    -1282, -1236, -1193, -1150, -1110, -1070, -1033, -996,
    -961, -927, -894, -862, -832, -802, -774, -747,
    -720, -695, -670, -646, -623, -601, -580, -559,
    -540, -520, -502, -484, -467, -451, -435, -419,
    -404, -390, -376, -363, -350, -338, -326, -314,
    -303, -292, -282, -272, -262, -253, -244, -235,
    -227, -219, -211, -204, -196, -189, -183, -176,
    -170, -164, -158, -153, -147, -142, -137, -132,
    -127, -123, -118, -114, -110, -106, -103, -99,
    -95, -92, -89, -86, -83, -80, -77, -74,
    -71, -69, -66, -64, -62, -60, -58, -56,
    -54, -52, -50, -48, -46, -45, -43, -42,
    -40, -39, -37, -36, -35, -33, -32, -31,
    -30, -29, -28, -27, -26, -25, -24, -23,
    -23, -22, -21, -20, -19, -19, -18, -17,
    -17, -16, -16, -15, -15, -14, -14, -13,
    -13, -12, -12, -11, -11, -11, -10, -10,
    -9, -9, -9, -8, -8, -8, -8, -7,
    -7, -7, -7, -6, -6, -6, -6, -6,
    -5, -5, -5, -5, -5, -4, -4, -4,
];

/// Coefficients of the decay and release curves, in Q31, indexed by the decay/release setting.
pub const FALL_COEFFICIENTS: [i32; 256] = [
    1772538298, 1784645108, 1796400772, 1807812769, 1818888611, 1829635829, 1840061953, 1850174501,
    1859980962, 1869488785, 1878705366, 1887638040, 1896294069, 1904680634, 1912804828, 1920673650,
    1928293996, 1935672657, 1942816313, 1949731529, 1956424749, 1962902298, 1969170378, 1975235064,
    1981102304, 1986777917, 1992267595, 1997576901, 2002711266, 2007675995, 2012476262, 2017117117,
    2021603478, 2025940142, 2030131778, 2034182934, 2038098036, 2041881391, 2045537187, 2049069497,
    2052482279, 2055779379, 2058964534, 2062041373, 2065013419, 2067884091, 2070656709, 2073334491,
    2075920561, 2078417948, 2080829587, 2083158326, 2085406924, 2087578053, 2089674304, 2091698185,
    2093652128, 2095538485, 2097359534, 2099117483, 2100814464, 2102452546, 2104033728, 2105559945,
    2107033069, 2108454911, 2109827223, 2111151700, 2112429979, 2113663645, 2114854229, 2116003214,
    2117112031, 2118182063, 2119214649, 2120211082, 2121172610, 2122100442, 2122995744, 2123859643,
    2124693229, 2125497554, 2126273635, 2127022453, 2127744956, 2128442062, 2129114655, 2129763590,
    2130389691, 2130993756, 2131576554, 2132138829, 2132681298, 2133204653, 2133709565, 2134196679,
    2134666618, 2135119984, 2135557358, 2135979301, 2136386356, 2136779044, 2137157869, 2137523320,
    2137875866, 2138215960, 2138544041, 2138860532, 2139165839, 2139460357, 2139744466, 2140018531,
    2140282908, 2140537937, 2140783947, 2141021258, 2141250175, 2141470994, 2141684001, 2141889473,
    2142087674, 2142278861, 2142463282, 2142641176, 2142812773, 2142978296, 2143137959, 2143291969,
    2143440527, 2143583824, 2143722047, 2143855375, 2143983981, 2144108033, 2144227690, 2144343109,
    2144454439, 2144561826, 2144665408, 2144765320, 2144861692, 2144954650, 2145044314, 2145130801,
    2145214223, 2145294688, 2145372302, 2145447166, 2145519376, 2145589026, 2145656209, 2145721009,
    2145783513, 2145843802, 2145901953, 2145958043, 2146012144, 2146064328, 2146114661, 2146163211,
    2146210039, 2146255206, 2146298773, 2146340794, 2146381326, 2146420421, 2146458129, 2146494500,
    2146529582, 2146563420, 2146596058, 2146627538, 2146657902, 2146687190, 2146715439, 2146742686,
    2146768967, 2146794316, 2146818765, 2146842348, 2146865095, 2146887035, 2146908196, 2146928608,
    2146948295, 2146967284, 2146985600, 2147003266, 2147020305, 2147036740, 2147052592, 2147067882,
    2147082630, 2147096855, 2147110575, 2147123808, 2147136572, 2147148884, 2147160758, 2147172212,
    2147183259, 2147193915, 2147204192, 2147214105, 2147223666, 2147232889, 2147241784, 2147250363,
    2147258638, 2147266620, 2147274319, 2147281744, 2147288906, 2147295814, 2147302477, 2147308904,
    2147315103, 2147321082, 2147326848, 2147332410, 2147337775, 2147342950, 2147347941, 2147352755,
    2147357398, 2147361877, 2147366196, 2147370363, 2147374381, 2147378257, 2147381996, 2147385602,
    2147389080, 2147392435, 2147395670, 2147398791, 2147401802, 2147404705, 2147407505, 2147410206,
    2147412812, 2147415325, 2147417748, 2147420086, 2147422341, 2147424516, 2147426613, 2147428636,
    2147430588, 2147432470, 2147434286, 2147436037, 2147437726, 2147439355, 2147440926, 2147442442,
];

/// Per-sample U8F24 phase increment of each MIDI note for a 256-entry table at 48 kHz.
pub const MIDI_TO_PHASE_INCREMENT: [u32; 128] = [
    731558, 775059, 821146, 869974, 921705, 976513, 1034579, 1096099,
    1161276, 1230329, 1303488, 1380998, 1463116, 1550118, 1642292, 1739948,
    1843411, 1953026, 2069159, 2192197, 2322552, 2460658, 2606977, 2761996,
    2926232, 3100235, 3284585, 3479896, 3686822, 3906052, 4138318, 4384395,
    4645104, 4921317, 5213953, 5523991, 5852465, 6200470, 6569170, 6959793,
    7373644, 7812103, 8276635, 8768789, 9290209, 9842633, 10427907, 11047982,
    11704930, 12400941, 13138339, 13919586, 14747287, 15624207, 16553270, 17537579,
    18580418, 19685267, 20855814, 22095965, 23409859, 24801882, 26276679, 27839171,
    29494575, 31248413, 33106541, 35075158, 37160835, 39370534, 41711627, 44191930,
    46819719, 49603764, 52553357, 55678342, 58989149, 62496826, 66213081, 70150316,
    74321671, 78741067, 83423255, 88383859, 93639437, 99207528, 105106715, 111356685,
    117978298, 124993653, 132426162, 140300631, 148643341, 157482134, 166846509, 176767719,
    187278874, 198415056, 210213429, 222713370, 235956596, 249987305, 264852324, 280601263,
    297286682, 314964268, 333693018, 353535438, 374557749, 396830112, 420426858, 445426740,
    471913192, 499974611, 529704648, 561202526, 594573365, 629928537, 667386037, 707070876,
    749115498, 793660223, 840853716, 890853480, 943826385, 999949222, 1059409297, 1122405052,
];

/// One cycle of a sine wave, in Q15.
pub const SINE_WAVETABLE: [i16; 256] = [
    0, 804, 1608, 2411, 3212, 4011, 4808, 5602, 6393, 7180, 7962, 8740, 9512, 10279, 11039, 11793,
    12540, 13279, 14010, 14733, 15447, 16151, 16846, 17531, 18205, 18868, 19520, 20160, 20788, 21403, 22006, 22595,
    23170, 23732, 24279, 24812, 25330, 25833, 26320, 26791, 27246, 27684, 28106, 28511, 28899, 29269, 29622, 29957,
    30274, 30572, 30853, 31114, 31357, 31581, 31786, 31972, 32138, 32286, 32413, 32522, 32610, 32679, 32729, 32758,
    32767, 32758, 32729, 32679, 32610, 32522, 32413, 32286, 32138, 31972, 31786, 31581, 31357, 31114, 30853, 30572,
    30274, 29957, 29622, 29269, 28899, 28511, 28106, 27684, 27246, 26791, 26320, 25833, 25330, 24812, 24279, 23732,
    23170, 22595, 22006, 21403, 20788, 20160, 19520, 18868, 18205, 17531, 16846, 16151, 15447, 14733, 14010, 13279,
    12540, 11793, 11039, 10279, 9512, 8740, 7962, 7180, 6393, 5602, 4808, 4011, 3212, 2411, 1608, 804,
    0, -804, -1608, -2411, -3212, -4011, -4808, -5602, -6393, -7180, -7962, -8740, -9512, -10279, -11039, -11793,
    -12540, -13279, -14010, -14733, -15447, -16151, -16846, -17531, -18205, -18868, -19520, -20160, -20788, -21403, -22006, -22595,
    -23170, -23732, -24279, -24812, -25330, -25833, -26320, -26791, -27246, -27684, -28106, -28511, -28899, -29269, -29622, -29957,
    -30274, -30572, -30853, -31114, -31357, -31581, -31786, -31972, -32138, -32286, -32413, -32522, -32610, -32679, -32729, -32758,
    -32768, -32758, -32729, -32679, -32610, -32522, -32413, -32286, -32138, -31972, -31786, -31581, -31357, -31114, -30853, -30572,
    -30274, -29957, -29622, -29269, -28899, -28511, -28106, -27684, -27246, -26791, -26320, -25833, -25330, -24812, -24279, -23732,
    -23170, -22595, -22006, -21403, -20788, -20160, -19520, -18868, -18205, -17531, -16846, -16151, -15447, -14733, -14010, -13279,
    -12540, -11793, -11039, -10279, -9512, -8740, -7962, -7180, -6393, -5602, -4808, -4011, -3212, -2411, -1608, -804,
];

/// One cycle of a rising sawtooth wave, in Q15.
pub const SAW_WAVETABLE: [i16; 256] = [
    -32768, -32512, -32256, -32000, -31744, -31488, -31232, -30976, -30720, -30464, -30208, -29952, -29696, -29440, -29184, -28928,
    -28672, -28416, -28160, -27904, -27648, -27392, -27136, -26880, -26624, -26368, -26112, -25856, -25600, -25344, -25088, -24832,
    -24576, -24320, -24064, -23808, -23552, -23296, -23040, -22784, -22528, -22272, -22016, -21760, -21504, -21248, -20992, -20736,
    -20480, -20224, -19968, -19712, -19456, -19200, -18944, -18688, -18432, -18176, -17920, -17664, -17408, -17152, -16896, -16640,
    -16384, -16128, -15872, -15616, -15360, -15104, -14848, -14592, -14336, -14080, -13824, -13568, -13312, -13056, -12800, -12544,
    -12288, -12032, -11776, -11520, -11264, -11008, -10752, -10496, -10240, -9984, -9728, -9472, -9216, -8960, -8704, -8448,
    -8192, -7936, -7680, -7424, -7168, -6912, -6656, -6400, -6144, -5888, -5632, -5376, -5120, -4864, -4608, -4352,
    -4096, -3840, -3584, -3328, -3072, -2816, -2560, -2304, -2048, -1792, -1536, -1280, -1024, -768, -512, -256,
    0, 256, 512, 768, 1024, 1280, 1536, 1792, 2048, 2304, 2560, 2816, 3072, 3328, 3584, 3840,
    4096, 4352, 4608, 4864, 5120, 5376, 5632, 5888, 6144, 6400, 6656, 6912, 7168, 7424, 7680, 7936,
    8192, 8448, 8704, 8960, 9216, 9472, 9728, 9984, 10240, 10496, 10752, 11008, 11264, 11520, 11776, 12032,
    12288, 12544, 12800, 13056, 13312, 13568, 13824, 14080, 14336, 14592, 14848, 15104, 15360, 15616, 15872, 16128,
    16384, 16640, 16896, 17152, 17408, 17664, 17920, 18176, 18432, 18688, 18944, 19200, 19456, 19712, 19968, 20224,
    20480, 20736, 20992, 21248, 21504, 21760, 22016, 22272, 22528, 22784, 23040, 23296, 23552, 23808, 24064, 24320,
    24576, 24832, 25088, 25344, 25600, 25856, 26112, 26368, 26624, 26880, 27136, 27392, 27648, 27904, 28160, 28416,
    28672, 28928, 29184, 29440, 29696, 29952, 30208, 30464, 30720, 30976, 31232, 31488, 31744, 32000, 32256, 32512,
];

/// One cycle of a square wave, in Q15.
pub const SQUARE_WAVETABLE: [i16; 256] = [
    32767, 32767, 32767, 32767, 32767, 32767, 32767, 32767, 32767, 32767, 32767, 32767, 32767, 32767, 32767, 32767,
    32767, 32767, 32767, 32767, 32767, 32767, 32767, 32767, 32767, 32767, 32767, 32767, 32767, 32767, 32767, 32767,
    32767, 32767, 32767, 32767, 32767, 32767, 32767, 32767, 32767, 32767, 32767, 32767, 32767, 32767, 32767, 32767,
    32767, 32767, 32767, 32767, 32767, 32767, 32767, 32767, 32767, 32767, 32767, 32767, 32767, 32767, 32767, 32767,
    32767, 32767, 32767, 32767, 32767, 32767, 32767, 32767, 32767, 32767, 32767, 32767, 32767, 32767, 32767, 32767,
    32767, 32767, 32767, 32767, 32767, 32767, 32767, 32767, 32767, 32767, 32767, 32767, 32767, 32767, 32767, 32767,
    32767, 32767, 32767, 32767, 32767, 32767, 32767, 32767, 32767, 32767, 32767, 32767, 32767, 32767, 32767, 32767,
    32767, 32767, 32767, 32767, 32767, 32767, 32767, 32767, 32767, 32767, 32767, 32767, 32767, 32767, 32767, 32767,
    -32768, -32768, -32768, -32768, -32768, -32768, -32768, -32768, -32768, -32768, -32768, -32768, -32768, -32768, -32768, -32768,
    -32768, -32768, -32768, -32768, -32768, -32768, -32768, -32768, -32768, -32768, -32768, -32768, -32768, -32768, -32768, -32768,
    -32768, -32768, -32768, -32768, -32768, -32768, -32768, -32768, -32768, -32768, -32768, -32768, -32768, -32768, -32768, -32768,
    -32768, -32768, -32768, -32768, -32768, -32768, -32768, -32768, -32768, -32768, -32768, -32768, -32768, -32768, -32768, -32768,
    -32768, -32768, -32768, -32768, -32768, -32768, -32768, -32768, -32768, -32768, -32768, -32768, -32768, -32768, -32768, -32768,
    -32768, -32768, -32768, -32768, -32768, -32768, -32768, -32768, -32768, -32768, -32768, -32768, -32768, -32768, -32768, -32768,
    -32768, -32768, -32768, -32768, -32768, -32768, -32768, -32768, -32768, -32768, -32768, -32768, -32768, -32768, -32768, -32768,
    -32768, -32768, -32768, -32768, -32768, -32768, -32768, -32768, -32768, -32768, -32768, -32768, -32768, -32768, -32768, -32768,
];

/// One cycle of a triangle wave, in Q15.
pub const TRIANGLE_WAVETABLE: [i16; 256] = [
    0, 512, 1024, 1536, 2048, 2560, 3072, 3584, 4096, 4608, 5120, 5632, 6144, 6656, 7168, 7680,
    8192, 8704, 9216, 9728, 10240, 10752, 11264, 11776, 12288, 12800, 13312, 13824, 14336, 14848, 15360, 15872,
    16384, 16896, 17408, 17920, 18432, 18944, 19456, 19968, 20480, 20992, 21504, 22016, 22528, 23040, 23552, 24064,
    24576, 25088, 25600, 26112, 26624, 27136, 27648, 28160, 28672, 29184, 29696, 30208, 30720, 31232, 31744, 32256,
    32767, 32256, 31744, 31232, 30720, 30208, 29696, 29184, 28672, 28160, 27648, 27136, 26624, 26112, 25600, 25088,
    24576, 24064, 23552, 23040, 22528, 22016, 21504, 20992, 20480, 19968, 19456, 18944, 18432, 17920, 17408, 16896,
    16384, 15872, 15360, 14848, 14336, 13824, 13312, 12800, 12288, 11776, 11264, 10752, 10240, 9728, 9216, 8704,
    8192, 7680, 7168, 6656, 6144, 5632, 5120, 4608, 4096, 3584, 3072, 2560, 2048, 1536, 1024, 512,
    0, -512, -1024, -1536, -2048, -2560, -3072, -3584, -4096, -4608, -5120, -5632, -6144, -6656, -7168, -7680,
    -8192, -8704, -9216, -9728, -10240, -10752, -11264, -11776, -12288, -12800, -13312, -13824, -14336, -14848, -15360, -15872,
    -16384, -16896, -17408, -17920, -18432, -18944, -19456, -19968, -20480, -20992, -21504, -22016, -22528, -23040, -23552, -24064,
    -24576, -25088, -25600, -26112, -26624, -27136, -27648, -28160, -28672, -29184, -29696, -30208, -30720, -31232, -31744, -32256,
    -32768, -32256, -31744, -31232, -30720, -30208, -29696, -29184, -28672, -28160, -27648, -27136, -26624, -26112, -25600, -25088,
    -24576, -24064, -23552, -23040, -22528, -22016, -21504, -20992, -20480, -19968, -19456, -18944, -18432, -17920, -17408, -16896,
    -16384, -15872, -15360, -14848, -14336, -13824, -13312, -12800, -12288, -11776, -11264, -10752, -10240, -9728, -9216, -8704,
    -8192, -7680, -7168, -6656, -6144, -5632, -5120, -4608, -4096, -3584, -3072, -2560, -2048, -1536, -1024, -512,
];

/// Biquad coefficients of the six octave bands, six per band in the order
/// `b0, 0, b1, b2, a1, a2`, in Q15 and pre-shifted right by one bit.
pub const OCTAVE_FILTER_COEFFS: [i16; 36] = [
    1, 0, 1, 1, 32500, -16118,
    94, 0, 0, -94, 32575, -16196,
    187, 0, 0, -187, 32376, -16009,
    371, 0, 0, -371, 31958, -15643,
    725, 0, 0, -725, 31049, -14934,
    14374, 0, -28747, 14374, 28500, -12611,
];

} // verus!
