use crate::logs::{log10_pow2_spec, log2_pow10_spec};
use vstd::prelude::*;

verus! {

/// Smallest decimal exponent that the table covers.
pub const POW10_MIN: i64 = -292;

/// Largest decimal exponent that the table covers.
pub const POW10_MAX: i64 = 324;

/// Number of table entries.
pub const POW10_LEN: usize = 617;

/// 128-bit mantissas of powers of ten. Entry `p - POW10_MIN` is `(hi, lo)` with
/// `hi · 2^64 - lo` the ceiling of `10^p · 2^(127 - log2_pow10(p))`, a value in
/// `[2^127, 2^128)`.
pub const POW10_TAB: [(u64, u64); 617] = [
    (0xff77b1fcbebcdc50, 0xda171763ec44f085), // 1e-292
    (0x9faacf3df73609b2, 0x884e6e9e73ab1653), // 1e-291
    (0xc795830d75038c1e, 0x2a620a461095dbe8), // 1e-290
    (0xf97ae3d0d2446f26, 0xb4fa8cd794bb52e2), // 1e-289
    (0x9becce62836ac578, 0xb11c9806bcf513cd), // 1e-288
    (0xc2e801fb244576d6, 0xdd63be086c3258c0), // 1e-287
    (0xf3a20279ed56d48b, 0x94bcad8a873eeef0), // 1e-286
    (0x9845418c345644d7, 0x7cf5ec7694875556), // 1e-285
    (0xbe5691ef416bd60d, 0xdc33679439a92aac), // 1e-284
    (0xedec366b11c6cb90, 0xd340417948137557), // 1e-283
    (0x94b3a202eb1c3f3a, 0x840828ebcd0c2956), // 1e-282
    (0xb9e08a83a5e34f08, 0x250a3326c04f33ac), // 1e-281
    (0xe858ad248f5c22ca, 0x2e4cbff070630097), // 1e-280
    (0x91376c36d99995bf, 0xdceff7f6463de05e), // 1e-279
    (0xb58547448ffffb2e, 0x542bf5f3d7cd5875), // 1e-278
    (0xe2e69915b3fff9fa, 0xe936f370cdc0ae93), // 1e-277
    (0x8dd01fad907ffc3c, 0x51c2582680986d1c), // 1e-276
    (0xb1442798f49ffb4b, 0x6632ee3020be8863), // 1e-275
    (0xdd95317f31c7fa1e, 0xbfbfa9bc28ee2a7c), // 1e-274
    (0x8a7d3eef7f1cfc53, 0xb7d7ca159994da8d), // 1e-273
    (0xad1c8eab5ee43b67, 0x25cdbc9afffa1130), // 1e-272
    (0xd863b256369d4a41, 0x6f412bc1bff8957d), // 1e-271
    (0x873e4f75e2224e69, 0xa588bb5917fb5d6e), // 1e-270
    (0xa90de3535aaae203, 0x8eeaea2f5dfa34c9), // 1e-269
    (0xd3515c2831559a84, 0xf2a5a4bb3578c1fc), // 1e-268
    (0x8412d9991ed58092, 0x17a786f5016b793d), // 1e-267
    (0xa5178fff668ae0b7, 0x9d9168b241c6578d), // 1e-266
    (0xce5d73ff402d98e4, 0x04f5c2ded237ed70), // 1e-265
    (0x80fa687f881c7f8f, 0x831999cb4362f466), // 1e-264
    (0xa139029f6a239f73, 0xe3e0003e143bb17f), // 1e-263
    (0xc987434744ac874f, 0x5cd8004d994a9ddf), // 1e-262
    (0xfbe9141915d7a923, 0xb40e0060ff9d4557), // 1e-261
    (0x9d71ac8fada6c9b6, 0x9088c03c9fc24b56), // 1e-260
    (0xc4ce17b399107c23, 0x34aaf04bc7b2de2c), // 1e-259
    (0xf6019da07f549b2c, 0x81d5ac5eb99f95b7), // 1e-258
    (0x99c102844f94e0fc, 0xd1258bbb3403bd92), // 1e-257
    (0xc0314325637a193a, 0x056eeeaa0104acf7), // 1e-256
    (0xf03d93eebc589f89, 0x86caaa548145d835), // 1e-255
    (0x96267c7535b763b6, 0xb43eaa74d0cba721), // 1e-254
    (0xbbb01b9283253ca3, 0x614e551204fe90e9), // 1e-253
    (0xea9c227723ee8bcc, 0xb9a1ea56863e3523), // 1e-252
    (0x92a1958a76751760, 0xf405327613e6e136), // 1e-251
    (0xb749faed14125d37, 0x31067f1398e09984), // 1e-250
    (0xe51c79a85916f485, 0x7d481ed87f18bfe5), // 1e-249
    (0x8f31cc0937ae58d3, 0x2e4d13474f6f77ef), // 1e-248
    (0xb2fe3f0b8599ef08, 0x79e05819234b55ea), // 1e-247
    (0xdfbdcece67006aca, 0x98586e1f6c1e2b65), // 1e-246
    (0x8bd6a141006042be, 0x1f3744d3a392db1f), // 1e-245
    (0xaecc49914078536e, 0xa70516088c7791e7), // 1e-244
    (0xda7f5bf590966849, 0x50c65b8aaf957661), // 1e-243
    (0x888f99797a5e012e, 0x927bf936adbd69fc), // 1e-242
    (0xaab37fd7d8f58179, 0x371af784592cc47c), // 1e-241
    (0xd5605fcdcf32e1d7, 0x04e1b5656f77f59b), // 1e-240
    (0x855c3be0a17fcd27, 0xa30d115f65aaf980), // 1e-239
    (0xa6b34ad8c9dfc070, 0x0bd055b73f15b7e1), // 1e-238
    (0xd0601d8efc57b08c, 0x0ec46b250edb25d9), // 1e-237
    (0x823c12795db6ce58, 0x893ac2f72948f7a7), // 1e-236
    (0xa2cb1717b52481ee, 0xab8973b4f39b3591), // 1e-235
    (0xcb7ddcdda26da269, 0x566bd0a2308202f6), // 1e-234
    (0xfe5d54150b090b03, 0x2c06c4cabca283b3), // 1e-233
    (0x9efa548d26e5a6e2, 0x3b843afeb5e59250), // 1e-232
    (0xc6b8e9b0709f109b, 0xca6549be635ef6e4), // 1e-231
    (0xf867241c8cc6d4c1, 0x3cfe9c2dfc36b49d), // 1e-230
    (0x9b407691d7fc44f9, 0x861f219cbda230e2), // 1e-229
    (0xc21094364dfb5637, 0x67a6ea03ed0abd1b), // 1e-228
    (0xf294b943e17a2bc5, 0xc190a484e84d6c62), // 1e-227
    (0x979cf3ca6cec5b5b, 0x58fa66d3113063bd), // 1e-226
    (0xbd8430bd08277232, 0xaf390087d57c7cac), // 1e-225
    (0xece53cec4a314ebe, 0x5b0740a9cadb9bd7), // 1e-224
    (0x940f4613ae5ed137, 0x78e4886a1ec94166), // 1e-223
    (0xb913179899f68585, 0xd71daa84a67b91c0), // 1e-222
    (0xe757dd7ec07426e6, 0xcce51525d01a7630), // 1e-221
    (0x9096ea6f38489850, 0xc00f2d37a21089de), // 1e-220
    (0xb4bca50b065abe64, 0xf012f8858a94ac56), // 1e-219
    (0xe1ebce4dc7f16dfc, 0x2c17b6a6ed39d76b), // 1e-218
    (0x8d3360f09cf6e4be, 0x9b8ed228544426a3), // 1e-217
    (0xb080392cc4349ded, 0x427286b26955304c), // 1e-216
    (0xdca04777f541c568, 0x130f285f03aa7c5f), // 1e-215
    (0x89e42caaf9491b61, 0x0be9793b624a8dbb), // 1e-214
    (0xac5d37d5b79b623a, 0xcee3d78a3add312a), // 1e-213
    (0xd77485cb25823ac8, 0x829ccd6cc9947d74), // 1e-212
    (0x86a8d39ef77164bd, 0x51a20063fdfcce68), // 1e-211
    (0xa8530886b54dbdec, 0x260a807cfd7c0203), // 1e-210
    (0xd267caa862a12d67, 0x2f8d209c3cdb0284), // 1e-209
    (0x8380dea93da4bc61, 0xbdb83461a608e192), // 1e-208
    (0xa46116538d0deb79, 0xad26417a0f8b19f7), // 1e-207
    (0xcd795be870516657, 0x986fd1d8936de074), // 1e-206
    (0x806bd9714632dff7, 0xff45e3275c24ac49), // 1e-205
    (0xa086cfcd97bf97f4, 0x7f175bf1332dd75b), // 1e-204
    (0xc8a883c0fdaf7df1, 0x9edd32ed7ff94d32), // 1e-203
    (0xfad2a4b13d1b5d6d, 0x86947fa8dff7a07e), // 1e-202
    (0x9cc3a6eec6311a64, 0x341ccfc98bfac44f), // 1e-201
    (0xc3f490aa77bd60fd, 0x412403bbeef97563), // 1e-200
    (0xf4f1b4d515acb93c, 0x116d04aaeab7d2bb), // 1e-199
    (0x991711052d8bf3c6, 0x8ae422ead2b2e3b5), // 1e-198
    (0xbf5cd54678eef0b7, 0x2d9d2ba5875f9ca2), // 1e-197
    (0xef340a98172aace5, 0x7904768ee93783cb), // 1e-196
    (0x9580869f0e7aac0f, 0x2ba2ca1951c2b25f), // 1e-195
    (0xbae0a846d2195713, 0x768b7c9fa6335ef6), // 1e-194
    (0xe998d258869facd8, 0xd42e5bc78fc036b4), // 1e-193
    (0x91ff83775423cc07, 0x849cf95cb9d82230), // 1e-192
    (0xb67f6455292cbf09, 0xe5c437b3e84e2abd), // 1e-191
    (0xe41f3d6a7377eecb, 0xdf3545a0e261b56c), // 1e-190
    (0x8e938662882af53f, 0xab814b848d7d1163), // 1e-189
    (0xb23867fb2a35b28e, 0x16619e65b0dc55bc), // 1e-188
    (0xdec681f9f4c31f32, 0x9bfa05ff1d136b2b), // 1e-187
    (0x8b3c113c38f9f37f, 0x217c43bf722c22fb), // 1e-186
    (0xae0b158b4738705f, 0x69db54af4eb72bba), // 1e-185
    (0xd98ddaee19068c77, 0xc45229db2264f6a8), // 1e-184
    (0x87f8a8d4cfa417ca, 0x1ab35a28f57f1a29), // 1e-183
    (0xa9f6d30a038d1dbd, 0xa16030b332dee0b3), // 1e-182
    (0xd47487cc8470652c, 0x89b83cdfff9698e0), // 1e-181
    (0x84c8d4dfd2c63f3c, 0xd613260bffbe1f8c), // 1e-180
    (0xa5fb0a17c777cf0a, 0x0b97ef8effada76f), // 1e-179
    (0xcf79cc9db955c2cd, 0x8e7deb72bf99114b), // 1e-178
    (0x81ac1fe293d599c0, 0x390eb327b7bfaacf), // 1e-177
    (0xa21727db38cb0030, 0x47525ff1a5af9583), // 1e-176
    (0xca9cf1d206fdc03c, 0x5926f7ee0f1b7ae3), // 1e-175
    (0xfd442e4688bd304b, 0x6f70b5e992e2599c), // 1e-174
    (0x9e4a9cec15763e2f, 0x65a671b1fbcd7801), // 1e-173
    (0xc5dd44271ad3cdbb, 0xbf100e1e7ac0d602), // 1e-172
    (0xf7549530e188c129, 0x2ed411a619710b83), // 1e-171
    (0x9a94dd3e8cf578ba, 0x7d448b07cfe6a731), // 1e-170
    (0xc13a148e3032d6e8, 0x1c95adc9c3e050fe), // 1e-169
    (0xf18899b1bc3f8ca2, 0x23bb193c34d8653e), // 1e-168
    (0x96f5600f15a7b7e6, 0xd654efc5a1073f46), // 1e-167
    (0xbcb2b812db11a5df, 0x8bea2bb709490f18), // 1e-166
    (0xebdf661791d60f57, 0xeee4b6a4cb9b52de), // 1e-165
    (0x936b9fcebb25c996, 0x354ef226ff4113cb), // 1e-164
    (0xb84687c269ef3bfc, 0xc2a2aeb0bf1158bd), // 1e-163
    (0xe65829b3046b0afb, 0xf34b5a5ceed5aeed), // 1e-162
    (0x8ff71a0fe2c2e6dd, 0xb80f187a15458d54), // 1e-161
    (0xb3f4e093db73a094, 0xa612de989a96f0a9), // 1e-160
    (0xe0f218b8d25088b9, 0xcf97963ec13cacd3), // 1e-159
    (0x8c974f7383725574, 0xe1bebde738c5ec04), // 1e-158
    (0xafbd2350644eead0, 0x1a2e6d6106f76705), // 1e-157
    (0xdbac6c247d62a584, 0x20ba08b948b540c6), // 1e-156
    (0x894bc396ce5da773, 0x94744573cd71487c), // 1e-155
    (0xab9eb47c81f51150, 0xf99156d0c0cd9a9b), // 1e-154
    (0xd686619ba27255a3, 0x37f5ac84f1010142), // 1e-153
    (0x8613fd0145877586, 0x42f98bd316a0a0c9), // 1e-152
    (0xa798fc4196e952e8, 0xd3b7eec7dc48c8fb), // 1e-151
    (0xd17f3b51fca3a7a1, 0x08a5ea79d35afb3a), // 1e-150
    (0x82ef85133de648c5, 0x6567b28c2418dd04), // 1e-149
    (0xa3ab66580d5fdaf6, 0x3ec19f2f2d1f1445), // 1e-148
    (0xcc963fee10b7d1b4, 0xce7206faf866d957), // 1e-147
    (0xffbbcfe994e5c620, 0x020e88b9b6808fad), // 1e-146
    (0x9fd561f1fd0f9bd4, 0x01491574121059cc), // 1e-145
    (0xc7caba6e7c5382c9, 0x019b5ad11694703f), // 1e-144
    (0xf9bd690a1b68637c, 0xc20231855c398c4f), // 1e-143
    (0x9c1661a651213e2e, 0xf9415ef359a3f7b1), // 1e-142
    (0xc31bfa0fe5698db9, 0xb791b6b0300cf59d), // 1e-141
    (0xf3e2f893dec3f127, 0xa576245c3c103305), // 1e-140
    (0x986ddb5c6b3a76b8, 0x0769d6b9a58a1fe3), // 1e-139
    (0xbe89523386091466, 0x09444c680eeca7dc), // 1e-138
    (0xee2ba6c0678b5980, 0x8b955f8212a7d1d3), // 1e-137
    (0x94db483840b717f0, 0x573d5bb14ba8e323), // 1e-136
    (0xba121a4650e4ddec, 0x6d0cb29d9e931bec), // 1e-135
    (0xe896a0d7e51e1567, 0x884fdf450637e2e8), // 1e-134
    (0x915e2486ef32cd61, 0xf531eb8b23e2edd1), // 1e-133
    (0xb5b5ada8aaff80b9, 0xf27e666decdba945), // 1e-132
    (0xe3231912d5bf60e7, 0xef1e000968129396), // 1e-131
    (0x8df5efabc5979c90, 0x3572c005e10b9c3e), // 1e-130
    (0xb1736b96b6fd83b4, 0x42cf7007594e834d), // 1e-129
    (0xddd0467c64bce4a1, 0x53834c092fa22421), // 1e-128
    (0x8aa22c0dbef60ee5, 0x94320f85bdc55694), // 1e-127
    (0xad4ab7112eb3929e, 0x793e93672d36ac39), // 1e-126
    (0xd89d64d57a607745, 0x178e3840f8845748), // 1e-125
    (0x87625f056c7c4a8c, 0xeeb8e3289b52b68d), // 1e-124
    (0xa93af6c6c79b5d2e, 0x2a671bf2c2276430), // 1e-123
    (0xd389b4787982347a, 0xb500e2ef72b13d3c), // 1e-122
    (0x843610cb4bf160cc, 0x31208dd5a7aec645), // 1e-121
    (0xa54394fe1eedb8ff, 0x3d68b14b119a77d7), // 1e-120
    (0xce947a3da6a9273f, 0x8cc2dd9dd60115cd), // 1e-119
    (0x811ccc668829b888, 0xf7f9ca82a5c0ada0), // 1e-118
    (0xa163ff802a3426a9, 0x35f83d234f30d908), // 1e-117
    (0xc9bcff6034c13053, 0x03764c6c22fd0f4a), // 1e-116
    (0xfc2c3f3841f17c68, 0x4453df872bbc531d), // 1e-115
    (0x9d9ba7832936edc1, 0x2ab46bb47b55b3f2), // 1e-114
    (0xc5029163f384a932, 0xf56186a19a2b20ee), // 1e-113
    (0xf64335bcf065d37e, 0xb2b9e84a00b5e92a), // 1e-112
    (0x99ea0196163fa42f, 0xafb4312e4071b1ba), // 1e-111
    (0xc06481fb9bcf8d3a, 0x1ba13d79d08e1e29), // 1e-110
    (0xf07da27a82c37089, 0xa2898cd844b1a5b3), // 1e-109
    (0x964e858c91ba2656, 0xc595f8072aef0790), // 1e-108
    (0xbbe226efb628afeb, 0x76fb7608f5aac974), // 1e-107
    (0xeadab0aba3b2dbe6, 0xd4ba538b33157bd1), // 1e-106
    (0x92c8ae6b464fc970, 0xc4f47436ffed6d62), // 1e-105
    (0xb77ada0617e3bbcc, 0xf6319144bfe8c8bb), // 1e-104
    (0xe55990879ddcaabe, 0x33bdf595efe2faea), // 1e-103
    (0x8f57fa54c2a9eab7, 0x6056b97db5eddcd2), // 1e-102
    (0xb32df8e9f3546565, 0xb86c67dd23695406), // 1e-101
    (0xdff9772470297ebe, 0xa68781d46c43a908), // 1e-100
    (0x8bfbea76c619ef37, 0xa814b124c3aa49a5), // 1e-99
    (0xaefae51477a06b04, 0x1219dd6df494dc0e), // 1e-98
    (0xdab99e59958885c5, 0x16a054c971ba1312), // 1e-97
    (0x88b402f7fd75539c, 0xee2434fde7144beb), // 1e-96
    (0xaae103b5fcd2a882, 0x29ad423d60d95ee6), // 1e-95
    (0xd59944a37c0752a3, 0xb41892ccb90fb6a0), // 1e-94
    (0x857fcae62d8493a6, 0x908f5bbff3a9d224), // 1e-93
    (0xa6dfbd9fb8e5b88f, 0x34b332aff09446ad), // 1e-92
    (0xd097ad07a71f26b3, 0x81dfff5becb95858), // 1e-91
    (0x825ecc24c8737830, 0x712bff9973f3d737), // 1e-90
    (0xa2f67f2dfa90563c, 0x8d76ff7fd0f0cd05), // 1e-89
    (0xcbb41ef979346bcb, 0xb0d4bf5fc52d0046), // 1e-88
    (0xfea126b7d78186bd, 0x1d09ef37b6784057), // 1e-87
    (0x9f24b832e6b0f437, 0xf2263582d20b2836), // 1e-86
    (0xc6ede63fa05d3144, 0x6eafc2e3868df244), // 1e-85
    (0xf8a95fcf88747d95, 0x8a5bb39c68316ed5), // 1e-84
    (0x9b69dbe1b548ce7d, 0x36795041c11ee545), // 1e-83
    (0xc24452da229b021c, 0x0417a45231669e97), // 1e-82
    (0xf2d56790ab41c2a3, 0x051d8d66bdc0463c), // 1e-81
    (0x97c560ba6b0919a6, 0x2332786036982be5), // 1e-80
    (0xbdb6b8e905cb6010, 0xabff1678443e36df), // 1e-79
    (0xed246723473e3814, 0xd6fedc16554dc497), // 1e-78
    (0x9436c0760c86e30c, 0x065f498df5509ade), // 1e-77
    (0xb94470938fa89bcf, 0x07f71bf172a4c196), // 1e-76
    (0xe7958cb87392c2c3, 0x49f4e2edcf4df1fb), // 1e-75
    (0x90bd77f3483bb9ba, 0x4e390dd4a190b73d), // 1e-74
    (0xb4ecd5f01a4aa829, 0xe1c75149c9f4e50c), // 1e-73
    (0xe2280b6c20dd5233, 0xda39259c3c721e4f), // 1e-72
    (0x8d590723948a5360, 0xa863b781a5c752f1), // 1e-71
    (0xb0af48ec79ace838, 0xd27ca5620f3927ae), // 1e-70
    (0xdcdb1b2798182245, 0x071bceba9307719a), // 1e-69
    (0x8a08f0f8bf0f156c, 0xe47161349be4a700), // 1e-68
    (0xac8b2d36eed2dac6, 0x1d8db981c2ddd0c0), // 1e-67
    (0xd7adf884aa879178, 0xa4f127e2339544f0), // 1e-66
    (0x86ccbb52ea94baeb, 0x6716b8ed603d4b16), // 1e-65
    (0xa87fea27a539e9a6, 0xc0dc6728b84c9ddb), // 1e-64
    (0xd29fe4b18e88640f, 0x711380f2e65fc552), // 1e-63
    (0x83a3eeeef9153e8a, 0xe6ac3097cffbdb53), // 1e-62
    (0xa48ceaaab75a8e2c, 0xa0573cbdc3fad228), // 1e-61
    (0xcdb02555653131b7, 0xc86d0bed34f986b2), // 1e-60
    (0x808e17555f3ebf12, 0x1d442774411bf42f), // 1e-59
    (0xa0b19d2ab70e6ed7, 0xa49531515162f13b), // 1e-58
    (0xc8de047564d20a8c, 0x0dba7da5a5bbad8a), // 1e-57
    (0xfb158592be068d2f, 0x11291d0f0f2a98ed), // 1e-56
    (0x9ced737bb6c4183e, 0xaab9b229697a9f94), // 1e-55
    (0xc428d05aa4751e4d, 0x55681eb3c3d94779), // 1e-54
    (0xf53304714d9265e0, 0x2ac22660b4cf9957), // 1e-53
    (0x993fe2c6d07b7fac, 0x1ab957fc7101bfd6), // 1e-52
    (0xbf8fdb78849a5f97, 0x2167adfb8d422fcc), // 1e-51
    (0xef73d256a5c0f77d, 0x69c1997a7092bbbf), // 1e-50
    (0x95a8637627989aae, 0x2218ffec865bb557), // 1e-49
    (0xbb127c53b17ec15a, 0xaa9f3fe7a7f2a2ad), // 1e-48
    (0xe9d71b689dde71b0, 0x55470fe191ef4b59), // 1e-47
    (0x9226712162ab070e, 0x354c69ecfb358f17), // 1e-46
    (0xb6b00d69bb55c8d2, 0xc29f84683a02f2dd), // 1e-45
    (0xe45c10c42a2b3b06, 0x734765824883af95), // 1e-44
    (0x8eb98a7a9a5b04e4, 0x880c9f716d524dbd), // 1e-43
    (0xb267ed1940f1c61d, 0xaa0fc74dc8a6e12c), // 1e-42
    (0xdf01e85f912e37a4, 0x9493b9213ad09977), // 1e-41
    (0x8b61313bbabce2c7, 0xdcdc53b4c4c25fea), // 1e-40
    (0xae397d8aa96c1b78, 0x541368a1f5f2f7e5), // 1e-39
    (0xd9c7dced53c72256, 0x691842ca736fb5de), // 1e-38
    (0x881cea14545c7576, 0x81af29be8825d1ab), // 1e-37
    (0xaa242499697392d3, 0x221af42e2a2f4616), // 1e-36
    (0xd4ad2dbfc3d07788, 0x6aa1b139b4bb179b), // 1e-35
    (0x84ec3c97da624ab5, 0x42a50ec410f4eec1), // 1e-34
    (0xa6274bbdd0fadd62, 0x134e527515322a71), // 1e-33
    (0xcfb11ead453994bb, 0x9821e7125a7eb50d), // 1e-32
    (0x81ceb32c4b43fcf5, 0x7f15306b788f3128), // 1e-31
    (0xa2425ff75e14fc32, 0x5eda7c8656b2fd72), // 1e-30
    (0xcad2f7f5359a3b3f, 0xf6911ba7ec5fbccf), // 1e-29
    (0xfd87b5f28300ca0e, 0x74356291e777ac03), // 1e-28
    (0x9e74d1b791e07e49, 0x88a15d9b30aacb82), // 1e-27
    (0xc612062576589ddb, 0x6ac9b501fcd57e62), // 1e-26
    (0xf79687aed3eec552, 0xc57c22427c0addfb), // 1e-25
    (0x9abe14cd44753b53, 0x3b6d95698d86cabd), // 1e-24
    (0xc16d9a0095928a28, 0x8a48fac3f0e87d6c), // 1e-23
    (0xf1c90080baf72cb2, 0xacdb3974ed229cc7), // 1e-22
    (0x971da05074da7bef, 0x2c0903e91435a1fc), // 1e-21
    (0xbce5086492111aeb, 0x770b44e359430a7b), // 1e-20
    (0xec1e4a7db69561a6, 0xd4ce161c2f93cd1a), // 1e-19
    (0x9392ee8e921d5d08, 0xc500cdd19dbc6030), // 1e-18
    (0xb877aa3236a4b44a, 0xf6410146052b783d), // 1e-17
    (0xe69594bec44de15c, 0xb3d141978676564c), // 1e-16
    (0x901d7cf73ab0acda, 0xf062c8feb409f5ef), // 1e-15
    (0xb424dc35095cd810, 0xac7b7b3e610c736b), // 1e-14
    (0xe12e13424bb40e14, 0xd79a5a0df94f9046), // 1e-13
    (0x8cbccc096f5088cc, 0x06c07848bbd1ba2c), // 1e-12
    (0xafebff0bcb24aaff, 0x0870965aeac628b7), // 1e-11
    (0xdbe6fecebdedd5bf, 0x4a8cbbf1a577b2e4), // 1e-10
    (0x89705f4136b4a598, 0xce97f577076acfcf), // 1e-9
    (0xabcc77118461cefd, 0x023df2d4c94583c2), // 1e-8
    (0xd6bf94d5e57a42bd, 0xc2cd6f89fb96e4b3), // 1e-7
    (0x8637bd05af6c69b6, 0x59c065b63d3e4ef0), // 1e-6
    (0xa7c5ac471b478424, 0xf0307f23cc8de2ac), // 1e-5
    (0xd1b71758e219652c, 0x2c3c9eecbfb15b57), // 1e-4
    (0x83126e978d4fdf3c, 0x9ba5e353f7ced916), // 1e-3
    (0xa3d70a3d70a3d70b, 0xc28f5c28f5c28f5c), // 1e-2
    (0xcccccccccccccccd, 0x3333333333333333), // 1e-1
    (0x8000000000000000, 0x0000000000000000), // 1e0
    (0xa000000000000000, 0x0000000000000000), // 1e1
    (0xc800000000000000, 0x0000000000000000), // 1e2
    (0xfa00000000000000, 0x0000000000000000), // 1e3
    (0x9c40000000000000, 0x0000000000000000), // 1e4
    (0xc350000000000000, 0x0000000000000000), // 1e5
    (0xf424000000000000, 0x0000000000000000), // 1e6
    (0x9896800000000000, 0x0000000000000000), // 1e7
    (0xbebc200000000000, 0x0000000000000000), // 1e8
    (0xee6b280000000000, 0x0000000000000000), // 1e9
    (0x9502f90000000000, 0x0000000000000000), // 1e10
    (0xba43b74000000000, 0x0000000000000000), // 1e11
    (0xe8d4a51000000000, 0x0000000000000000), // 1e12
    (0x9184e72a00000000, 0x0000000000000000), // 1e13
    (0xb5e620f480000000, 0x0000000000000000), // 1e14
    (0xe35fa931a0000000, 0x0000000000000000), // 1e15
    (0x8e1bc9bf04000000, 0x0000000000000000), // 1e16
    (0xb1a2bc2ec5000000, 0x0000000000000000), // 1e17
    (0xde0b6b3a76400000, 0x0000000000000000), // 1e18
    (0x8ac7230489e80000, 0x0000000000000000), // 1e19
    (0xad78ebc5ac620000, 0x0000000000000000), // 1e20
    (0xd8d726b7177a8000, 0x0000000000000000), // 1e21
    (0x878678326eac9000, 0x0000000000000000), // 1e22
    (0xa968163f0a57b400, 0x0000000000000000), // 1e23
    (0xd3c21bcecceda100, 0x0000000000000000), // 1e24
    (0x84595161401484a0, 0x0000000000000000), // 1e25
    (0xa56fa5b99019a5c8, 0x0000000000000000), // 1e26
    (0xcecb8f27f4200f3a, 0x0000000000000000), // 1e27
    (0x813f3978f8940985, 0xc000000000000000), // 1e28
    (0xa18f07d736b90be6, 0xb000000000000000), // 1e29
    (0xc9f2c9cd04674edf, 0x5c00000000000000), // 1e30
    (0xfc6f7c4045812297, 0xb300000000000000), // 1e31
    (0x9dc5ada82b70b59e, 0x0fe0000000000000), // 1e32
    (0xc5371912364ce306, 0x93d8000000000000), // 1e33
    (0xf684df56c3e01bc7, 0x38ce000000000000), // 1e34
    (0x9a130b963a6c115d, 0xc380c00000000000), // 1e35
    (0xc097ce7bc90715b4, 0xb460f00000000000), // 1e36
    (0xf0bdc21abb48db21, 0xe1792c0000000000), // 1e37
    (0x96769950b50d88f5, 0xecebbb8000000000), // 1e38
    (0xbc143fa4e250eb32, 0xe826aa6000000000), // 1e39
    (0xeb194f8e1ae525fe, 0xa23054f800000000), // 1e40
    (0x92efd1b8d0cf37bf, 0xa55e351b00000000), // 1e41
    (0xb7abc627050305ae, 0x0eb5c261c0000000), // 1e42
    (0xe596b7b0c643c71a, 0x926332fa30000000), // 1e43
    (0x8f7e32ce7bea5c70, 0x1b7dffdc5e000000), // 1e44
    (0xb35dbf821ae4f38c, 0x225d7fd375800000), // 1e45
    (0xe0352f62a19e306f, 0x2af4dfc852e00000), // 1e46
    (0x8c213d9da502de46, 0xbad90bdd33cc0000), // 1e47
    (0xaf298d050e4395d7, 0x698f4ed480bf0000), // 1e48
    (0xdaf3f04651d47b4d, 0xc3f32289a0eec000), // 1e49
    (0x88d8762bf324cd10, 0x5a77f59604953800), // 1e50
    (0xab0e93b6efee0054, 0x7115f2fb85ba8600), // 1e51
    (0xd5d238a4abe98069, 0x8d5b6fba67292780), // 1e52
    (0x85a36366eb71f042, 0xb85925d48079b8b0), // 1e53
    (0xa70c3c40a64e6c52, 0x666f6f49a09826dc), // 1e54
    (0xd0cf4b50cfe20766, 0x000b4b1c08be3093), // 1e55
    (0x82818f1281ed44a0, 0x40070ef18576de5b), // 1e56
    (0xa321f2d7226895c8, 0x5008d2ade6d495f2), // 1e57
    (0xcbea6f8ceb02bb3a, 0x640b07596089bb6f), // 1e58
    (0xfee50b7025c36a09, 0xfd0dc92fb8ac2a4b), // 1e59
    (0x9f4f2726179a2246, 0xfe289dbdd36b9a6f), // 1e60
    (0xc722f0ef9d80aad7, 0xbdb2c52d4846810a), // 1e61
    (0xf8ebad2b84e0d58c, 0x2d1f76789a58214d), // 1e62
    (0x9b934c3b330c8578, 0x9c33aa0b607714d0), // 1e63
    (0xc2781f49ffcfa6d6, 0xc340948e3894da04), // 1e64
    (0xf316271c7fc3908b, 0x7410b9b1c6ba1085), // 1e65
    (0x97edd871cfda3a57, 0x688a740f1c344a53), // 1e66
    (0xbde94e8e43d0c8ed, 0xc2ad1112e3415ce8), // 1e67
    (0xed63a231d4c4fb28, 0xb35855579c11b422), // 1e68
    (0x945e455f24fb1cf9, 0x70173556c18b1095), // 1e69
    (0xb975d6b6ee39e437, 0x4c1d02ac71edd4bb), // 1e70
    (0xe7d34c64a9c85d45, 0x9f2443578e6949e9), // 1e71
    (0x90e40fbeea1d3a4b, 0x4376aa16b901ce32), // 1e72
    (0xb51d13aea4a488de, 0x9454549c674241be), // 1e73
    (0xe264589a4dcdab15, 0x396969c38112d22e), // 1e74
    (0x8d7eb76070a08aed, 0x03e1e21a30abc35d), // 1e75
    (0xb0de65388cc8ada9, 0xc4da5aa0bcd6b434), // 1e76
    (0xdd15fe86affad913, 0xb610f148ec0c6141), // 1e77
    (0x8a2dbf142dfcc7ac, 0x91ca96cd9387bcc8), // 1e78
    (0xacb92ed9397bf997, 0xb63d3c80f869abfb), // 1e79
    (0xd7e77a8f87daf7fc, 0x23cc8ba1368416f9), // 1e80
    (0x86f0ac99b4e8dafe, 0x965fd744c2128e5c), // 1e81
    (0xa8acd7c0222311bd, 0x3bf7cd15f29731f3), // 1e82
    (0xd2d80db02aabd62c, 0x0af5c05b6f3cfe6f), // 1e83
    (0x83c7088e1aab65dc, 0x86d9983925861f05), // 1e84
    (0xa4b8cab1a1563f53, 0xa88ffe476ee7a6c7), // 1e85
    (0xcde6fd5e09abcf27, 0x12b3fdd94aa19079), // 1e86
    (0x80b05e5ac60b6179, 0xabb07ea7cea4fa4b), // 1e87
    (0xa0dc75f1778e39d7, 0x969c9e51c24e38de), // 1e88
    (0xc913936dd571c84d, 0xfc43c5e632e1c716), // 1e89
    (0xfb5878494ace3a60, 0xfb54b75fbf9a38dc), // 1e90
    (0x9d174b2dcec0e47c, 0x9d14f29bd7c06389), // 1e91
    (0xc45d1df942711d9b, 0xc45a2f42cdb07c6b), // 1e92
    (0xf5746577930d6501, 0x3570bb13811c9b86), // 1e93
    (0x9968bf6abbe85f21, 0x816674ec30b1e134), // 1e94
    (0xbfc2ef456ae276e9, 0x61c012273cde5981), // 1e95
    (0xefb3ab16c59b14a3, 0x3a3016b10c15efe1), // 1e96
    (0x95d04aee3b80ece6, 0x445e0e2ea78db5ed), // 1e97
    (0xbb445da9ca612820, 0xd57591ba51712368), // 1e98
    (0xea1575143cf97227, 0x0ad2f628e5cd6c42), // 1e99
    (0x924d692ca61be759, 0xa6c3d9d98fa063a9), // 1e100
    (0xb6e0c377cfa2e12f, 0x9074d04ff3887c93), // 1e101
    (0xe498f455c38b997b, 0xf4920463f06a9bb8), // 1e102
    (0x8edf98b59a373fed, 0xb8db42be7642a153), // 1e103
    (0xb2977ee300c50fe8, 0xa712136e13d349a8), // 1e104
    (0xdf3d5e9bc0f653e2, 0xd0d6984998c81c12), // 1e105
    (0x8b865b215899f46d, 0x42861f2dff7d118b), // 1e106
    (0xae67f1e9aec07188, 0x1327a6f97f5c55ee), // 1e107
    (0xda01ee641a708dea, 0x17f190b7df336b6a), // 1e108
    (0x884134fe908658b3, 0xcef6fa72eb802322), // 1e109
    (0xaa51823e34a7eedf, 0x42b4b90fa6602bea), // 1e110
    (0xd4e5e2cdc1d1ea97, 0x9361e7538ff836e5), // 1e111
    (0x850fadc09923329f, 0xfc1d309439fb224f), // 1e112
    (0xa6539930bf6bff46, 0x7b247cb94879eae3), // 1e113
    (0xcfe87f7cef46ff17, 0x19ed9be79a98659c), // 1e114
    (0x81f14fae158c5f6f, 0xb0348170c09f3f81), // 1e115
    (0xa26da3999aef774a, 0x1c41a1ccf0c70f62), // 1e116
    (0xcb090c8001ab551d, 0xa3520a402cf8d33a), // 1e117
    (0xfdcb4fa002162a64, 0x8c268cd038370809), // 1e118
    (0x9e9f11c4014dda7f, 0xd798180223226505), // 1e119
    (0xc646d63501a1511e, 0x4d7e1e02abeafe47), // 1e120
    (0xf7d88bc24209a566, 0xe0dda58356e5bdd9), // 1e121
    (0x9ae7575969460760, 0xcc8a8772164f96a7), // 1e122
    (0xc1a12d2fc3978938, 0xffad294e9be37c51), // 1e123
    (0xf209787bb47d6b85, 0x3f9873a242dc5b65), // 1e124
    (0x9745eb4d50ce6333, 0x07bf484569c9b91f), // 1e125
    (0xbd176620a501fc00, 0x49af1a56c43c2767), // 1e126
    (0xec5d3fa8ce427b00, 0x5c1ae0ec754b3141), // 1e127
    (0x93ba47c980e98ce0, 0x3990cc93c94efec8), // 1e128
    (0xb8a8d9bbe123f018, 0x47f4ffb8bba2be7b), // 1e129
    (0xe6d3102ad96cec1e, 0x59f23fa6ea8b6e1a), // 1e130
    (0x9043ea1ac7e41393, 0x783767c8529724d0), // 1e131
    (0xb454e4a179dd1878, 0xd64541ba673cee04), // 1e132
    (0xe16a1dc9d8545e95, 0x0bd69229010c2985), // 1e133
    (0x8ce2529e2734bb1e, 0xe7661b59a0a799f3), // 1e134
    (0xb01ae745b101e9e5, 0xa13fa23008d18070), // 1e135
    (0xdc21a1171d42645e, 0x898f8abc0b05e08c), // 1e136
    (0x899504ae72497ebb, 0x95f9b6b586e3ac57), // 1e137
    (0xabfa45da0edbde6a, 0xfb782462e89c976d), // 1e138
    (0xd6f8d7509292d604, 0xba562d7ba2c3bd49), // 1e139
    (0x865b86925b9bc5c3, 0xf475dc6d45ba564d), // 1e140
    (0xa7f26836f282b733, 0x719353889728ebe1), // 1e141
    (0xd1ef0244af236500, 0xcdf8286abcf326d9), // 1e142
    (0x8335616aed761f20, 0x80bb1942b617f847), // 1e143
    (0xa402b9c5a8d3a6e8, 0xa0e9df93639df659), // 1e144
    (0xcd036837130890a2, 0xc92457783c8573f0), // 1e145
    (0x802221226be55a65, 0x3db6b6ab25d36876), // 1e146
    (0xa02aa96b06deb0fe, 0x0d246455ef484293), // 1e147
    (0xc83553c5c8965d3e, 0x906d7d6b6b1a5338), // 1e148
    (0xfa42a8b73abbf48d, 0x3488dcc645e0e806), // 1e149
    (0x9c69a97284b578d8, 0x00d589fbebac9104), // 1e150
    (0xc38413cf25e2d70e, 0x010aec7ae697b545), // 1e151
    (0xf46518c2ef5b8cd2, 0x814da799a03da296), // 1e152
    (0x98bf2f79d5993803, 0x10d088c00426859e), // 1e153
    (0xbeeefb584aff8604, 0x5504aaf005302705), // 1e154
    (0xeeaaba2e5dbf6785, 0x6a45d5ac067c30c7), // 1e155
    (0x952ab45cfa97a0b3, 0x226ba58b840d9e7c), // 1e156
    (0xba756174393d88e0, 0x6b068eee6511061b), // 1e157
    (0xe912b9d1478ceb18, 0x85c832a9fe5547a2), // 1e158
    (0x91abb422ccb812ef, 0x539d1faa3ef54cc5), // 1e159
    (0xb616a12b7fe617ab, 0xa8846794ceb29ff6), // 1e160
    (0xe39c49765fdf9d95, 0x12a5817a025f47f4), // 1e161
    (0x8e41ade9fbebc27e, 0xeba770ec417b8cf8), // 1e162
    (0xb1d219647ae6b31d, 0xa6914d2751da7037), // 1e163
    (0xde469fbd99a05fe4, 0x9035a07126510c44), // 1e164
    (0x8aec23d680043bef, 0xda218446b7f2a7ab), // 1e165
    (0xada72ccc20054aea, 0x50a9e55865ef5195), // 1e166
    (0xd910f7ff28069da5, 0xe4d45eae7f6b25fb), // 1e167
    (0x87aa9aff79042287, 0x6f04bb2d0fa2f7bd), // 1e168
    (0xa99541bf57452b29, 0xcac5e9f8538bb5ac), // 1e169
    (0xd3fa922f2d1675f3, 0xbd776476686ea317), // 1e170
    (0x847c9b5d7c2e09b8, 0x966a9eca014525ee), // 1e171
    (0xa59bc234db398c26, 0xbc05467c81966f6a), // 1e172
    (0xcf02b2c21207ef2f, 0x6b06981ba1fc0b44), // 1e173
    (0x8161afb94b44f57e, 0xe2e41f11453d870a), // 1e174
    (0xa1ba1ba79e1632dd, 0x9b9d26d5968ce8cd), // 1e175
    (0xca28a291859bbf94, 0x8284708afc302301), // 1e176
    (0xfcb2cb35e702af79, 0xa3258cadbb3c2bc1), // 1e177
    (0x9defbf01b061adac, 0xc5f777ec95059b58), // 1e178
    (0xc56baec21c7a1917, 0xf77555e7ba47022f), // 1e179
    (0xf6c69a72a3989f5c, 0x7552ab61a8d8c2ba), // 1e180
    (0x9a3c2087a63f639a, 0xc953ab1d098779b4), // 1e181
    (0xc0cb28a98fcf3c80, 0x7ba895e44be95822), // 1e182
    (0xf0fdf2d3f3c30ba0, 0x9a92bb5d5ee3ae2a), // 1e183
    (0x969eb7c47859e744, 0x609bb51a5b4e4cda), // 1e184
    (0xbc4665b596706115, 0x78c2a260f221e011), // 1e185
    (0xeb57ff22fc0c795a, 0x56f34af92eaa5815), // 1e186
    (0x9316ff75dd87cbd9, 0xf6580edbbd2a770d), // 1e187
    (0xb7dcbf5354e9becf, 0xf3ee1292ac7514d0), // 1e188
    (0xe5d3ef282a242e82, 0x70e9973757925a05), // 1e189
    (0x8fa475791a569d11, 0x0691fe8296bb7843), // 1e190
    (0xb38d92d760ec4456, 0xc8367e233c6a5653), // 1e191
    (0xe070f78d3927556b, 0x7a441dac0b84ebe8), // 1e192
    (0x8c469ab843b89563, 0x6c6a928b87331371), // 1e193
    (0xaf58416654a6babc, 0xc785372e68ffd84d), // 1e194
    (0xdb2e51bfe9d0696b, 0xf96684fa033fce61), // 1e195
    (0x88fcf317f22241e3, 0xbbe0131c4207e0fc), // 1e196
    (0xab3c2fddeeaad25b, 0x2ad817e35289d93c), // 1e197
    (0xd60b3bd56a5586f2, 0x758e1ddc272c4f8b), // 1e198
    (0x85c7056562757457, 0x0978d2a9987bb1b6), // 1e199
    (0xa738c6bebb12d16d, 0x4bd70753fe9a9e24), // 1e200
    (0xd106f86e69d785c8, 0x1eccc928fe4145ad), // 1e201
    (0x82a45b450226b39d, 0x133ffdb99ee8cb8c), // 1e202
    (0xa34d721642b06085, 0xd80ffd2806a2fe6f), // 1e203
    (0xcc20ce9bd35c78a6, 0xce13fc72084bbe0b), // 1e204
    (0xff290242c83396cf, 0x8198fb8e8a5ead8e), // 1e205
    (0x9f79a169bd203e42, 0xf0ff9d39167b2c79), // 1e206
    (0xc75809c42c684dd2, 0xad3f84875c19f797), // 1e207
    (0xf92e0c3537826146, 0x588f65a93320757d), // 1e208
    (0x9bbcc7a142b17ccc, 0x77599f89bff4496e), // 1e209
    (0xc2abf989935ddbff, 0x9530076c2ff15bca), // 1e210
    (0xf356f7ebf83552ff, 0xfa7c09473bedb2bc), // 1e211
    (0x98165af37b2153df, 0x3c8d85cc85748fb5), // 1e212
    (0xbe1bf1b059e9a8d7, 0x8bb0e73fa6d1b3a3), // 1e213
    (0xeda2ee1c7064130d, 0xee9d210f9086208c), // 1e214
    (0x9485d4d1c63e8be8, 0x752234a9ba53d457), // 1e215
    (0xb9a74a0637ce2ee2, 0x926ac1d428e8c96d), // 1e216
    (0xe8111c87c5c1ba9a, 0x370572493322fbc8), // 1e217
    (0x910ab1d4db9914a1, 0xe263676dbff5dd5d), // 1e218
    (0xb54d5e4a127f59c9, 0xdafc41492ff354b4), // 1e219
    (0xe2a0b5dc971f303b, 0xd1bb519b7bf029e2), // 1e220
    (0x8da471a9de737e25, 0xa31513012d761a2d), // 1e221
    (0xb10d8e1456105dae, 0x8bda57c178d3a0b8), // 1e222
    (0xdd50f1996b947519, 0x2ed0edb1d70888e6), // 1e223
    (0x8a5296ffe33cc930, 0x7d42948f26655590), // 1e224
    (0xace73cbfdc0bfb7c, 0x9c9339b2effeaaf4), // 1e225
    (0xd8210befd30efa5b, 0xc3b8081fabfe55b1), // 1e226
    (0x8714a775e3e95c79, 0x9a530513cb7ef58e), // 1e227
    (0xa8d9d1535ce3b397, 0x80e7c658be5eb2f2), // 1e228
    (0xd31045a8341ca07d, 0xe121b7eeedf65faf), // 1e229
    (0x83ea2b892091e44e, 0x6cb512f554b9fbcd), // 1e230
    (0xa4e4b66b68b65d61, 0x07e257b2a9e87ac0), // 1e231
    (0xce1de40642e3f4ba, 0xc9daed9f54629971), // 1e232
    (0x80d2ae83e9ce78f4, 0x3e28d48394bd9fe6), // 1e233
    (0xa1075a24e4421731, 0x4db309a479ed07e0), // 1e234
    (0xc94930ae1d529cfd, 0x211fcc0d986849d8), // 1e235
    (0xfb9b7cd9a4a7443d, 0xe967bf10fe825c4e), // 1e236
    (0x9d412e0806e88aa6, 0x71e0d76a9f1179b1), // 1e237
    (0xc491798a08a2ad4f, 0x0e590d4546d5d81d), // 1e238
    (0xf5b5d7ec8acb58a3, 0x51ef5096988b4e24), // 1e239
    (0x9991a6f3d6bf1766, 0x5335925e1f5710d6), // 1e240
    (0xbff610b0cc6edd40, 0xe802f6f5a72cd50c), // 1e241
    (0xeff394dcff8a948f, 0x2203b4b310f80a4f), // 1e242
    (0x95f83d0a1fb69cda, 0xb54250efea9b0671), // 1e243
    (0xbb764c4ca7a44410, 0x6292e52be541c80e), // 1e244
    (0xea53df5fd18d5514, 0x7b379e76de923a12), // 1e245
    (0x92746b9be2f8552d, 0xcd02c30a4b1b644b), // 1e246
    (0xb7118682dbb66a78, 0xc04373ccdde23d5e), // 1e247
    (0xe4d5e82392a40516, 0xf05450c0155accb5), // 1e248
    (0x8f05b1163ba6832e, 0xd634b2780d58bff1), // 1e249
    (0xb2c71d5bca9023f9, 0x8bc1df1610aeefed), // 1e250
    (0xdf78e4b2bd342cf7, 0x6eb256db94daabe9), // 1e251
    (0x8bab8eefb6409c1b, 0xe52f76493d08ab71), // 1e252
    (0xae9672aba3d0c321, 0x5e7b53db8c4ad64e), // 1e253
    (0xda3c0f568cc4f3e9, 0x361a28d26f5d8be1), // 1e254
    (0x8865899617fb1872, 0x81d05983859a776d), // 1e255
    (0xaa7eebfb9df9de8e, 0x22446fe467011548), // 1e256
    (0xd51ea6fa85785632, 0xaad58bdd80c15a9a), // 1e257
    (0x8533285c936b35df, 0x2ac5776a7078d8a0), // 1e258
    (0xa67ff273b8460357, 0x7576d5450c970ec8), // 1e259
    (0xd01fef10a657842d, 0xd2d48a964fbcd27a), // 1e260
    (0x8213f56a67f6b29c, 0x63c4d69df1d6038c), // 1e261
    (0xa298f2c501f45f43, 0x7cb60c456e4b8470), // 1e262
    (0xcb3f2f7642717714, 0xdbe38f56c9de658c), // 1e263
    (0xfe0efb53d30dd4d8, 0x12dc732c7c55feef), // 1e264
    (0x9ec95d1463e8a507, 0x0bc9c7fbcdb5bf55), // 1e265
    (0xc67bb4597ce2ce49, 0x4ebc39fac1232f2a), // 1e266
    (0xf81aa16fdc1b81db, 0x226b4879716bfaf5), // 1e267
    (0x9b10a4e5e9913129, 0x35830d4be6e37cd9), // 1e268
    (0xc1d4ce1f63f57d73, 0x02e3d09ee09c5c0f), // 1e269
    (0xf24a01a73cf2dcd0, 0x439cc4c698c37313), // 1e270
    (0x976e41088617ca02, 0x2a41fafc1f7a27ec), // 1e271
    (0xbd49d14aa79dbc83, 0xb4d279bb2758b1e7), // 1e272
    (0xec9c459d51852ba3, 0x22071829f12ede61), // 1e273
    (0x93e1ab8252f33b46, 0x35446f1a36bd4afc), // 1e274
    (0xb8da1662e7b00a18, 0xc2958ae0c46c9dbc), // 1e275
    (0xe7109bfba19c0c9e, 0xf33aed98f587c52b), // 1e276
    (0x906a617d450187e3, 0xd804d47f9974db3a), // 1e277
    (0xb484f9dc9641e9db, 0x4e06099f7fd21209), // 1e278
    (0xe1a63853bbd26452, 0xa1878c075fc6968c), // 1e279
    (0x8d07e33455637eb3, 0x24f4b7849bdc1e17), // 1e280
    (0xb049dc016abc5e60, 0x6e31e565c2d3259d), // 1e281
    (0xdc5c5301c56b75f8, 0x89be5ebf3387ef04), // 1e282
    (0x89b9b3e11b6329bb, 0x5616fb378034f562), // 1e283
    (0xac2820d9623bf42a, 0xab9cba05604232bb), // 1e284
    (0xd732290fbacaf134, 0x5683e886b852bf6a), // 1e285
    (0x867f59a9d4bed6c1, 0xb61271543333b7a2), // 1e286
    (0xa81f301449ee8c71, 0xa3970da94000a58b), // 1e287
    (0xd226fc195c6a2f8d, 0x8c7cd1139000ceee), // 1e288
    (0x83585d8fd9c25db8, 0x37ce02ac3a008154), // 1e289
    (0xa42e74f3d032f526, 0x45c183574880a1aa), // 1e290
    (0xcd3a1230c43fb270, 0xd731e42d1aa0ca14), // 1e291
    (0x80444b5e7aa7cf86, 0x867f2e9c30a47e4c), // 1e292
    (0xa0555e361951c367, 0x281efa433ccd9de0), // 1e293
    (0xc86ab5c39fa63441, 0x7226b8d40c010558), // 1e294
    (0xfa856334878fc151, 0x4eb067090f0146ae), // 1e295
    (0x9c935e00d4b9d8d3, 0x912e4065a960cc2c), // 1e296
    (0xc3b8358109e84f08, 0xf579d07f13b8ff37), // 1e297
    (0xf4a642e14c6262c9, 0x32d8449ed8a73f05), // 1e298
    (0x98e7e9cccfbd7dbe, 0x7fc72ae347688763), // 1e299
    (0xbf21e44003acdd2d, 0x1fb8f59c1942a93c), // 1e300
    (0xeeea5d5004981479, 0xe7a733031f93538b), // 1e301
    (0x95527a5202df0ccc, 0xf0c87fe1f3bc1437), // 1e302
    (0xbaa718e68396cffe, 0x2cfa9fda70ab1945), // 1e303
    (0xe950df20247c83fe, 0xb83947d10cd5df96), // 1e304
    (0x91d28b7416cdd27f, 0xb323cce2a805abbe), // 1e305
    (0xb6472e511c81471e, 0x1fecc01b520716ad), // 1e306
    (0xe3d8f9e563a198e6, 0xa7e7f0222688dc59), // 1e307
    (0x8e679c2f5e44ff90, 0xa8f0f615581589b7), // 1e308
    (0xb201833b35d63f74, 0xd32d339aae1aec25), // 1e309
    (0xde81e40a034bcf50, 0x07f8808159a1a72e), // 1e310
    (0x8b112e86420f6192, 0x04fb5050d805087d), // 1e311
    (0xadd57a27d29339f7, 0x863a24650e064a9c), // 1e312
    (0xd94ad8b1c7380875, 0xe7c8ad7e5187dd43), // 1e313
    (0x87cec76f1c830549, 0x70dd6c6ef2f4ea4a), // 1e314
    (0xa9c2794ae3a3c69b, 0x4d14c78aafb224dd), // 1e315
    (0xd433179d9c8cb842, 0xa059f96d5b9eae14), // 1e316
    (0x849feec281d7f329, 0x24383be459432ccc), // 1e317
    (0xa5c7ea73224deff4, 0xed464add6f93f7ff), // 1e318
    (0xcf39e50feae16bf0, 0x2897dd94cb78f5ff), // 1e319
    (0x81842f29f2cce376, 0x195eea7cff2b99bf), // 1e320
    (0xa1e53af46f801c54, 0x9fb6a51c3ef6802f), // 1e321
    (0xca5e89b18b602369, 0xc7a44e634eb4203b), // 1e322
    (0xfcf62c1dee382c43, 0xb98d61fc2261284a), // 1e323
    (0x9e19db92b4e31baa, 0x93f85d3d957cb92e), // 1e324
];

/// Every entry of the table is normalized: its high word has the top bit set.
pub proof fn lemma_pow10_tab_normalized()
    ensures
        forall|i: int| 0 <= i < POW10_LEN ==> #[trigger] POW10_TAB@[i].0 >= 0x8000_0000_0000_0000u64,
{
}

/// The entry at index `i` is normalized.
pub proof fn lemma_pow10_entry_normalized(i: int)
    requires
        0 <= i < POW10_LEN,
    ensures
        POW10_TAB@[i].0 >= 0x8000_0000_0000_0000u64,
{
    lemma_pow10_tab_normalized();
}

/// Where the decimal exponent `p` is reached from the binary exponent
/// `x = 3 - log2_pow10(p)`, the largest that leaves a shift of five bits only,
/// `2^x · 10^p < 10` makes `10^p / 2^log2_pow10(p)` less than 5/4, so the high word of
/// the entry is below `5/8 · 2^64`. The entry at index `i` has this bound in that case.
pub proof fn lemma_pow10_entry_tight(i: int)
    requires
        0 <= i < POW10_LEN,
        -log10_pow2_spec(3 - log2_pow10_spec(i + POW10_MIN)) == i + POW10_MIN,
    ensures
        POW10_TAB@[i].0 < 0xa000_0000_0000_0000u64,
{
    if i < 80 {
        lemma_tight_0();
    } else if i < 160 {
        lemma_tight_1();
    } else if i < 240 {
        lemma_tight_2();
    } else if i < 320 {
        lemma_tight_3();
    } else if i < 400 {
        lemma_tight_4();
    } else if i < 480 {
        lemma_tight_5();
    } else if i < 560 {
        lemma_tight_6();
    } else {
        lemma_tight_7();
    }
}


/// The case of `lemma_pow10_entry_tight` on the entries 0 to 79.
proof fn lemma_tight_0()
    ensures
        forall|i: int|
            0 <= i < 80 && -log10_pow2_spec(3 - log2_pow10_spec(i + POW10_MIN)) == i + POW10_MIN
                ==> #[trigger] POW10_TAB@[i].0 < 0xa000_0000_0000_0000u64,
{
}


/// The case of `lemma_pow10_entry_tight` on the entries 80 to 159.
proof fn lemma_tight_1()
    ensures
        forall|i: int|
            80 <= i < 160 && -log10_pow2_spec(3 - log2_pow10_spec(i + POW10_MIN)) == i + POW10_MIN
                ==> #[trigger] POW10_TAB@[i].0 < 0xa000_0000_0000_0000u64,
{
}


/// The case of `lemma_pow10_entry_tight` on the entries 160 to 239.
proof fn lemma_tight_2()
    ensures
        forall|i: int|
            160 <= i < 240 && -log10_pow2_spec(3 - log2_pow10_spec(i + POW10_MIN)) == i + POW10_MIN
                ==> #[trigger] POW10_TAB@[i].0 < 0xa000_0000_0000_0000u64,
{
}


/// The case of `lemma_pow10_entry_tight` on the entries 240 to 319.
proof fn lemma_tight_3()
    ensures
        forall|i: int|
            240 <= i < 320 && -log10_pow2_spec(3 - log2_pow10_spec(i + POW10_MIN)) == i + POW10_MIN
                ==> #[trigger] POW10_TAB@[i].0 < 0xa000_0000_0000_0000u64,
{
}


/// The case of `lemma_pow10_entry_tight` on the entries 320 to 399.
proof fn lemma_tight_4()
    ensures
        forall|i: int|
            320 <= i < 400 && -log10_pow2_spec(3 - log2_pow10_spec(i + POW10_MIN)) == i + POW10_MIN
                ==> #[trigger] POW10_TAB@[i].0 < 0xa000_0000_0000_0000u64,
{
}


/// The case of `lemma_pow10_entry_tight` on the entries 400 to 479.
proof fn lemma_tight_5()
    ensures
        forall|i: int|
            400 <= i < 480 && -log10_pow2_spec(3 - log2_pow10_spec(i + POW10_MIN)) == i + POW10_MIN
                ==> #[trigger] POW10_TAB@[i].0 < 0xa000_0000_0000_0000u64,
{
}


/// The case of `lemma_pow10_entry_tight` on the entries 480 to 559.
proof fn lemma_tight_6()
    ensures
        forall|i: int|
            480 <= i < 560 && -log10_pow2_spec(3 - log2_pow10_spec(i + POW10_MIN)) == i + POW10_MIN
                ==> #[trigger] POW10_TAB@[i].0 < 0xa000_0000_0000_0000u64,
{
}


/// The case of `lemma_pow10_entry_tight` on the entries 560 to 616.
proof fn lemma_tight_7()
    ensures
        forall|i: int|
            560 <= i < 617 && -log10_pow2_spec(3 - log2_pow10_spec(i + POW10_MIN)) == i + POW10_MIN
                ==> #[trigger] POW10_TAB@[i].0 < 0xa000_0000_0000_0000u64,
{
}

} // verus!
