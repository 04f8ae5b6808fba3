//! The sRGB transfer curve, stated exactly, and tables of it.
use vstd::prelude::*;

verus! {

/// `x` to the fifth power.
pub open spec fn pow5(x: int) -> int {
    x * x * x * x * x
}

/// `x` to the seventh power.
pub open spec fn pow7(x: int) -> int {
    pow5(x) * x * x
}

/// `x` to the twelfth power.
pub open spec fn pow12(x: int) -> int {
    pow5(x) * pow7(x)
}

/// `s` is the sRGB encoding of linear value `l`, both channels with maximum
/// `m`, rounded to the nearest integer.
///
/// With `x = l / m`, the curve is `12.92 x` up to `x = 0.0031308` and
/// `1.055 x^(1/2.4) - 0.055` above; `s` lies within one half of `m` times it.
/// The power segment is stated with both sides raised to the twelfth power.
pub open spec fn srgb_encoded(l: int, s: int, m: int) -> bool {
    if 10000000 * l <= 31308 * m {
        -50 <= 100 * s - 1292 * l <= 50
    } else {
        &&& pow12(200 * s - 100 + 11 * m) <= pow5(l) * pow12(211) * pow7(m)
        &&& pow5(l) * pow12(211) * pow7(m) <= pow12(200 * s + 100 + 11 * m)
    }
}

/// `l` is the linear value of sRGB value `s`, both channels with maximum `m`,
/// rounded to the nearest integer.
///
/// With `x = s / m`, the curve is `x / 12.92` up to `x = 0.04045` and
/// `((x + 0.055) / 1.055)^2.4` above; `l` lies within one half of `m` times
/// it.  The power segment is stated with both sides raised to the fifth power.
pub open spec fn srgb_decoded(s: int, l: int, m: int) -> bool {
    if 100000 * s <= 4045 * m {
        -646 <= 1292 * l - 100 * s <= 646
    } else {
        &&& pow5(2 * l - 1) * pow12(1055) * pow7(m) <= 32 * pow12(1000 * s + 55 * m)
        &&& 32 * pow12(1000 * s + 55 * m) <= pow5(2 * l + 1) * pow12(1055) * pow7(m)
    }
}

/// sRGB encoding of each linear value of eight bits.
pub open spec fn encode8_table(i: int) -> int {
    if i == 0 {
        0
    } else if i == 1 {
        13
    } else if i == 2 {
        22
    } else if i == 3 {
        28
    } else if i == 4 {
        34
    } else if i == 5 {
        38
    } else if i == 6 {
        42
    } else if i == 7 {
        46
    } else if i == 8 {
        50
    } else if i == 9 {
        53
    } else if i == 10 {
        56
    } else if i == 11 {
        59
    } else if i == 12 {
        61
    } else if i == 13 {
        64
    } else if i == 14 {
        66
    } else if i == 15 {
        69
    } else if i == 16 {
        71
    } else if i == 17 {
        73
    } else if i == 18 {
        75
    } else if i == 19 {
        77
    } else if i == 20 {
        79
    } else if i == 21 {
        81
    } else if i == 22 {
        83
    } else if i == 23 {
        85
    } else if i == 24 {
        86
    } else if i == 25 {
        88
    } else if i == 26 {
        90
    } else if i == 27 {
        92
    } else if i == 28 {
        93
    } else if i == 29 {
        95
    } else if i == 30 {
        96
    } else if i == 31 {
        98
    } else if i == 32 {
        99
    } else if i == 33 {
        101
    } else if i == 34 {
        102
    } else if i == 35 {
        104
    } else if i == 36 {
        105
    } else if i == 37 {
        106
    } else if i == 38 {
        108
    } else if i == 39 {
        109
    } else if i == 40 {
        110
    } else if i == 41 {
        112
    } else if i == 42 {
        113
    } else if i == 43 {
        114
    } else if i == 44 {
        115
    } else if i == 45 {
        117
    } else if i == 46 {
        118
    } else if i == 47 {
        119
    } else if i == 48 {
        120
    } else if i == 49 {
        121
    } else if i == 50 {
        122
    } else if i == 51 {
        124
    } else if i == 52 {
        125
    } else if i == 53 {
        126
    } else if i == 54 {
        127
    } else if i == 55 {
        128
    } else if i == 56 {
        129
    } else if i == 57 {
        130
    } else if i == 58 {
        131
    } else if i == 59 {
        132
    } else if i == 60 {
        133
    } else if i == 61 {
        134
    } else if i == 62 {
        135
    } else if i == 63 {
        136
    } else if i == 64 {
        137
    } else if i == 65 {
        138
    } else if i == 66 {
        139
    } else if i == 67 {
        140
    } else if i == 68 {
        141
    } else if i == 69 {
        142
    } else if i == 70 {
        143
    } else if i == 71 {
        144
    } else if i == 72 {
        145
    } else if i == 73 {
        146
    } else if i == 74 {
        147
    } else if i == 75 {
        148
    } else if i == 76 {
        148
    } else if i == 77 {
        149
    } else if i == 78 {
        150
    } else if i == 79 {
        151
    } else if i == 80 {
        152
    } else if i == 81 {
        153
    } else if i == 82 {
        154
    } else if i == 83 {
        155
    } else if i == 84 {
        155
    } else if i == 85 {
        156
    } else if i == 86 {
        157
    } else if i == 87 {
        158
    } else if i == 88 {
        159
    } else if i == 89 {
        159
    } else if i == 90 {
        160
    } else if i == 91 {
        161
    } else if i == 92 {
        162
    } else if i == 93 {
        163
    } else if i == 94 {
        163
    } else if i == 95 {
        164
    } else if i == 96 {
        165
    } else if i == 97 {
        166
    } else if i == 98 {
        167
    } else if i == 99 {
        167
    } else if i == 100 {
        168
    } else if i == 101 {
        169
    } else if i == 102 {
        170
    } else if i == 103 {
        170
    } else if i == 104 {
        171
    } else if i == 105 {
        172
    } else if i == 106 {
        173
    } else if i == 107 {
        173
    } else if i == 108 {
        174
    } else if i == 109 {
        175
    } else if i == 110 {
        175
    } else if i == 111 {
        176
    } else if i == 112 {
        177
    } else if i == 113 {
        178
    } else if i == 114 {
        178
    } else if i == 115 {
        179
    } else if i == 116 {
        180
    } else if i == 117 {
        180
    } else if i == 118 {
        181
    } else if i == 119 {
        182
    } else if i == 120 {
        182
    } else if i == 121 {
        183
    } else if i == 122 {
        184
    } else if i == 123 {
        185
    } else if i == 124 {
        185
    } else if i == 125 {
        186
    } else if i == 126 {
        187
    } else if i == 127 {
        187
    } else if i == 128 {
        188
    } else if i == 129 {
        189
    } else if i == 130 {
        189
    } else if i == 131 {
        190
    } else if i == 132 {
        190
    } else if i == 133 {
        191
    } else if i == 134 {
        192
    } else if i == 135 {
        192
    } else if i == 136 {
        193
    } else if i == 137 {
        194
    } else if i == 138 {
        194
    } else if i == 139 {
        195
    } else if i == 140 {
        196
    } else if i == 141 {
        196
    } else if i == 142 {
        197
    } else if i == 143 {
        197
    } else if i == 144 {
        198
    } else if i == 145 {
        199
    } else if i == 146 {
        199
    } else if i == 147 {
        200
    } else if i == 148 {
        200
    } else if i == 149 {
        201
    } else if i == 150 {
        202
    } else if i == 151 {
        202
    } else if i == 152 {
        203
    } else if i == 153 {
        203
    } else if i == 154 {
        204
    } else if i == 155 {
        205
    } else if i == 156 {
        205
    } else if i == 157 {
        206
    } else if i == 158 {
        206
    } else if i == 159 {
        207
    } else if i == 160 {
        208
    } else if i == 161 {
        208
    } else if i == 162 {
        209
    } else if i == 163 {
        209
    } else if i == 164 {
        210
    } else if i == 165 {
        210
    } else if i == 166 {
        211
    } else if i == 167 {
        212
    } else if i == 168 {
        212
    } else if i == 169 {
        213
    } else if i == 170 {
        213
    } else if i == 171 {
        214
    } else if i == 172 {
        214
    } else if i == 173 {
        215
    } else if i == 174 {
        215
    } else if i == 175 {
        216
    } else if i == 176 {
        216
    } else if i == 177 {
        217
    } else if i == 178 {
        218
    } else if i == 179 {
        218
    } else if i == 180 {
        219
    } else if i == 181 {
        219
    } else if i == 182 {
        220
    } else if i == 183 {
        220
    } else if i == 184 {
        221
    } else if i == 185 {
        221
    } else if i == 186 {
        222
    } else if i == 187 {
        222
    } else if i == 188 {
        223
    } else if i == 189 {
        223
    } else if i == 190 {
        224
    } else if i == 191 {
        224
    } else if i == 192 {
        225
    } else if i == 193 {
        226
    } else if i == 194 {
        226
    } else if i == 195 {
        227
    } else if i == 196 {
        227
    } else if i == 197 {
        228
    } else if i == 198 {
        228
    } else if i == 199 {
        229
    } else if i == 200 {
        229
    } else if i == 201 {
        230
    } else if i == 202 {
        230
    } else if i == 203 {
        231
    } else if i == 204 {
        231
    } else if i == 205 {
        232
    } else if i == 206 {
        232
    } else if i == 207 {
        233
    } else if i == 208 {
        233
    } else if i == 209 {
        234
    } else if i == 210 {
        234
    } else if i == 211 {
        235
    } else if i == 212 {
        235
    } else if i == 213 {
        236
    } else if i == 214 {
        236
    } else if i == 215 {
        237
    } else if i == 216 {
        237
    } else if i == 217 {
        238
    } else if i == 218 {
        238
    } else if i == 219 {
        238
    } else if i == 220 {
        239
    } else if i == 221 {
        239
    } else if i == 222 {
        240
    } else if i == 223 {
        240
    } else if i == 224 {
        241
    } else if i == 225 {
        241
    } else if i == 226 {
        242
    } else if i == 227 {
        242
    } else if i == 228 {
        243
    } else if i == 229 {
        243
    } else if i == 230 {
        244
    } else if i == 231 {
        244
    } else if i == 232 {
        245
    } else if i == 233 {
        245
    } else if i == 234 {
        246
    } else if i == 235 {
        246
    } else if i == 236 {
        246
    } else if i == 237 {
        247
    } else if i == 238 {
        247
    } else if i == 239 {
        248
    } else if i == 240 {
        248
    } else if i == 241 {
        249
    } else if i == 242 {
        249
    } else if i == 243 {
        250
    } else if i == 244 {
        250
    } else if i == 245 {
        251
    } else if i == 246 {
        251
    } else if i == 247 {
        251
    } else if i == 248 {
        252
    } else if i == 249 {
        252
    } else if i == 250 {
        253
    } else if i == 251 {
        253
    } else if i == 252 {
        254
    } else if i == 253 {
        254
    } else if i == 254 {
        255
    } else {
        255
    }
}

/// Linear value of each sRGB value of eight bits.
pub open spec fn decode8_table(i: int) -> int {
    if i == 0 {
        0
    } else if i == 1 {
        0
    } else if i == 2 {
        0
    } else if i == 3 {
        0
    } else if i == 4 {
        0
    } else if i == 5 {
        0
    } else if i == 6 {
        0
    } else if i == 7 {
        1
    } else if i == 8 {
        1
    } else if i == 9 {
        1
    } else if i == 10 {
        1
    } else if i == 11 {
        1
    } else if i == 12 {
        1
    } else if i == 13 {
        1
    } else if i == 14 {
        1
    } else if i == 15 {
        1
    } else if i == 16 {
        1
    } else if i == 17 {
        1
    } else if i == 18 {
        2
    } else if i == 19 {
        2
    } else if i == 20 {
        2
    } else if i == 21 {
        2
    } else if i == 22 {
        2
    } else if i == 23 {
        2
    } else if i == 24 {
        2
    } else if i == 25 {
        2
    } else if i == 26 {
        3
    } else if i == 27 {
        3
    } else if i == 28 {
        3
    } else if i == 29 {
        3
    } else if i == 30 {
        3
    } else if i == 31 {
        3
    } else if i == 32 {
        4
    } else if i == 33 {
        4
    } else if i == 34 {
        4
    } else if i == 35 {
        4
    } else if i == 36 {
        4
    } else if i == 37 {
        5
    } else if i == 38 {
        5
    } else if i == 39 {
        5
    } else if i == 40 {
        5
    } else if i == 41 {
        6
    } else if i == 42 {
        6
    } else if i == 43 {
        6
    } else if i == 44 {
        6
    } else if i == 45 {
        7
    } else if i == 46 {
        7
    } else if i == 47 {
        7
    } else if i == 48 {
        8
    } else if i == 49 {
        8
    } else if i == 50 {
        8
    } else if i == 51 {
        8
    } else if i == 52 {
        9
    } else if i == 53 {
        9
    } else if i == 54 {
        9
    } else if i == 55 {
        10
    } else if i == 56 {
        10
    } else if i == 57 {
        10
    } else if i == 58 {
        11
    } else if i == 59 {
        11
    } else if i == 60 {
        12
    } else if i == 61 {
        12
    } else if i == 62 {
        12
    } else if i == 63 {
        13
    } else if i == 64 {
        13
    } else if i == 65 {
        13
    } else if i == 66 {
        14
    } else if i == 67 {
        14
    } else if i == 68 {
        15
    } else if i == 69 {
        15
    } else if i == 70 {
        16
    } else if i == 71 {
        16
    } else if i == 72 {
        17
    } else if i == 73 {
        17
    } else if i == 74 {
        17
    } else if i == 75 {
        18
    } else if i == 76 {
        18
    } else if i == 77 {
        19
    } else if i == 78 {
        19
    } else if i == 79 {
        20
    } else if i == 80 {
        20
    } else if i == 81 {
        21
    } else if i == 82 {
        22
    } else if i == 83 {
        22
    } else if i == 84 {
        23
    } else if i == 85 {
        23
    } else if i == 86 {
        24
    } else if i == 87 {
        24
    } else if i == 88 {
        25
    } else if i == 89 {
        25
    } else if i == 90 {
        26
    } else if i == 91 {
        27
    } else if i == 92 {
        27
    } else if i == 93 {
        28
    } else if i == 94 {
        29
    } else if i == 95 {
        29
    } else if i == 96 {
        30
    } else if i == 97 {
        30
    } else if i == 98 {
        31
    } else if i == 99 {
        32
    } else if i == 100 {
        32
    } else if i == 101 {
        33
    } else if i == 102 {
        34
    } else if i == 103 {
        35
    } else if i == 104 {
        35
    } else if i == 105 {
        36
    } else if i == 106 {
        37
    } else if i == 107 {
        37
    } else if i == 108 {
        38
    } else if i == 109 {
        39
    } else if i == 110 {
        40
    } else if i == 111 {
        41
    } else if i == 112 {
        41
    } else if i == 113 {
        42
    } else if i == 114 {
        43
    } else if i == 115 {
        44
    } else if i == 116 {
        45
    } else if i == 117 {
        45
    } else if i == 118 {
        46
    } else if i == 119 {
        47
    } else if i == 120 {
        48
    } else if i == 121 {
        49
    } else if i == 122 {
        50
    } else if i == 123 {
        51
    } else if i == 124 {
        51
    } else if i == 125 {
        52
    } else if i == 126 {
        53
    } else if i == 127 {
        54
    } else if i == 128 {
        55
    } else if i == 129 {
        56
    } else if i == 130 {
        57
    } else if i == 131 {
        58
    } else if i == 132 {
        59
    } else if i == 133 {
        60
    } else if i == 134 {
        61
    } else if i == 135 {
        62
    } else if i == 136 {
        63
    } else if i == 137 {
        64
    } else if i == 138 {
        65
    } else if i == 139 {
        66
    } else if i == 140 {
        67
    } else if i == 141 {
        68
    } else if i == 142 {
        69
    } else if i == 143 {
        70
    } else if i == 144 {
        71
    } else if i == 145 {
        72
    } else if i == 146 {
        73
    } else if i == 147 {
        74
    } else if i == 148 {
        76
    } else if i == 149 {
        77
    } else if i == 150 {
        78
    } else if i == 151 {
        79
    } else if i == 152 {
        80
    } else if i == 153 {
        81
    } else if i == 154 {
        82
    } else if i == 155 {
        84
    } else if i == 156 {
        85
    } else if i == 157 {
        86
    } else if i == 158 {
        87
    } else if i == 159 {
        88
    } else if i == 160 {
        90
    } else if i == 161 {
        91
    } else if i == 162 {
        92
    } else if i == 163 {
        93
    } else if i == 164 {
        95
    } else if i == 165 {
        96
    } else if i == 166 {
        97
    } else if i == 167 {
        99
    } else if i == 168 {
        100
    } else if i == 169 {
        101
    } else if i == 170 {
        103
    } else if i == 171 {
        104
    } else if i == 172 {
        105
    } else if i == 173 {
        107
    } else if i == 174 {
        108
    } else if i == 175 {
        109
    } else if i == 176 {
        111
    } else if i == 177 {
        112
    } else if i == 178 {
        114
    } else if i == 179 {
        115
    } else if i == 180 {
        116
    } else if i == 181 {
        118
    } else if i == 182 {
        119
    } else if i == 183 {
        121
    } else if i == 184 {
        122
    } else if i == 185 {
        124
    } else if i == 186 {
        125
    } else if i == 187 {
        127
    } else if i == 188 {
        128
    } else if i == 189 {
        130
    } else if i == 190 {
        131
    } else if i == 191 {
        133
    } else if i == 192 {
        134
    } else if i == 193 {
        136
    } else if i == 194 {
        138
    } else if i == 195 {
        139
    } else if i == 196 {
        141
    } else if i == 197 {
        142
    } else if i == 198 {
        144
    } else if i == 199 {
        146
    } else if i == 200 {
        147
    } else if i == 201 {
        149
    } else if i == 202 {
        151
    } else if i == 203 {
        152
    } else if i == 204 {
        154
    } else if i == 205 {
        156
    } else if i == 206 {
        157
    } else if i == 207 {
        159
    } else if i == 208 {
        161
    } else if i == 209 {
        163
    } else if i == 210 {
        164
    } else if i == 211 {
        166
    } else if i == 212 {
        168
    } else if i == 213 {
        170
    } else if i == 214 {
        171
    } else if i == 215 {
        173
    } else if i == 216 {
        175
    } else if i == 217 {
        177
    } else if i == 218 {
        179
    } else if i == 219 {
        181
    } else if i == 220 {
        183
    } else if i == 221 {
        184
    } else if i == 222 {
        186
    } else if i == 223 {
        188
    } else if i == 224 {
        190
    } else if i == 225 {
        192
    } else if i == 226 {
        194
    } else if i == 227 {
        196
    } else if i == 228 {
        198
    } else if i == 229 {
        200
    } else if i == 230 {
        202
    } else if i == 231 {
        204
    } else if i == 232 {
        206
    } else if i == 233 {
        208
    } else if i == 234 {
        210
    } else if i == 235 {
        212
    } else if i == 236 {
        214
    } else if i == 237 {
        216
    } else if i == 238 {
        218
    } else if i == 239 {
        220
    } else if i == 240 {
        222
    } else if i == 241 {
        224
    } else if i == 242 {
        226
    } else if i == 243 {
        229
    } else if i == 244 {
        231
    } else if i == 245 {
        233
    } else if i == 246 {
        235
    } else if i == 247 {
        237
    } else if i == 248 {
        239
    } else if i == 249 {
        242
    } else if i == 250 {
        244
    } else if i == 251 {
        246
    } else if i == 252 {
        248
    } else if i == 253 {
        250
    } else if i == 254 {
        253
    } else {
        255
    }
}

/// sRGB encoding of the sixteen-bit linear value `i * 257`.
pub open spec fn encode16_knots(i: int) -> int {
    if i == 0 {
        0
    } else if i == 1 {
        3266
    } else if i == 2 {
        5567
    } else if i == 3 {
        7255
    } else if i == 4 {
        8638
    } else if i == 5 {
        9831
    } else if i == 6 {
        10891
    } else if i == 7 {
        11853
    } else if i == 8 {
        12737
    } else if i == 9 {
        13559
    } else if i == 10 {
        14329
    } else if i == 11 {
        15056
    } else if i == 12 {
        15745
    } else if i == 13 {
        16401
    } else if i == 14 {
        17028
    } else if i == 15 {
        17630
    } else if i == 16 {
        18209
    } else if i == 17 {
        18767
    } else if i == 18 {
        19306
    } else if i == 19 {
        19828
    } else if i == 20 {
        20334
    } else if i == 21 {
        20826
    } else if i == 22 {
        21304
    } else if i == 23 {
        21769
    } else if i == 24 {
        22223
    } else if i == 25 {
        22667
    } else if i == 26 {
        23099
    } else if i == 27 {
        23523
    } else if i == 28 {
        23937
    } else if i == 29 {
        24342
    } else if i == 30 {
        24740
    } else if i == 31 {
        25130
    } else if i == 32 {
        25513
    } else if i == 33 {
        25888
    } else if i == 34 {
        26257
    } else if i == 35 {
        26620
    } else if i == 36 {
        26977
    } else if i == 37 {
        27328
    } else if i == 38 {
        27674
    } else if i == 39 {
        28014
    } else if i == 40 {
        28350
    } else if i == 41 {
        28680
    } else if i == 42 {
        29006
    } else if i == 43 {
        29327
    } else if i == 44 {
        29644
    } else if i == 45 {
        29957
    } else if i == 46 {
        30266
    } else if i == 47 {
        30571
    } else if i == 48 {
        30872
    } else if i == 49 {
        31169
    } else if i == 50 {
        31463
    } else if i == 51 {
        31754
    } else if i == 52 {
        32041
    } else if i == 53 {
        32325
    } else if i == 54 {
        32606
    } else if i == 55 {
        32884
    } else if i == 56 {
        33159
    } else if i == 57 {
        33431
    } else if i == 58 {
        33700
    } else if i == 59 {
        33967
    } else if i == 60 {
        34231
    } else if i == 61 {
        34492
    } else if i == 62 {
        34751
    } else if i == 63 {
        35008
    } else if i == 64 {
        35262
    } else if i == 65 {
        35514
    } else if i == 66 {
        35764
    } else if i == 67 {
        36011
    } else if i == 68 {
        36256
    } else if i == 69 {
        36500
    } else if i == 70 {
        36741
    } else if i == 71 {
        36980
    } else if i == 72 {
        37217
    } else if i == 73 {
        37452
    } else if i == 74 {
        37686
    } else if i == 75 {
        37917
    } else if i == 76 {
        38147
    } else if i == 77 {
        38375
    } else if i == 78 {
        38602
    } else if i == 79 {
        38826
    } else if i == 80 {
        39049
    } else if i == 81 {
        39270
    } else if i == 82 {
        39490
    } else if i == 83 {
        39708
    } else if i == 84 {
        39925
    } else if i == 85 {
        40140
    } else if i == 86 {
        40354
    } else if i == 87 {
        40566
    } else if i == 88 {
        40777
    } else if i == 89 {
        40987
    } else if i == 90 {
        41195
    } else if i == 91 {
        41401
    } else if i == 92 {
        41607
    } else if i == 93 {
        41811
    } else if i == 94 {
        42014
    } else if i == 95 {
        42215
    } else if i == 96 {
        42416
    } else if i == 97 {
        42615
    } else if i == 98 {
        42813
    } else if i == 99 {
        43009
    } else if i == 100 {
        43205
    } else if i == 101 {
        43400
    } else if i == 102 {
        43593
    } else if i == 103 {
        43785
    } else if i == 104 {
        43976
    } else if i == 105 {
        44166
    } else if i == 106 {
        44355
    } else if i == 107 {
        44543
    } else if i == 108 {
        44730
    } else if i == 109 {
        44916
    } else if i == 110 {
        45101
    } else if i == 111 {
        45285
    } else if i == 112 {
        45468
    } else if i == 113 {
        45651
    } else if i == 114 {
        45832
    } else if i == 115 {
        46012
    } else if i == 116 {
        46191
    } else if i == 117 {
        46370
    } else if i == 118 {
        46547
    } else if i == 119 {
        46724
    } else if i == 120 {
        46900
    } else if i == 121 {
        47075
    } else if i == 122 {
        47249
    } else if i == 123 {
        47422
    } else if i == 124 {
        47594
    } else if i == 125 {
        47766
    } else if i == 126 {
        47937
    } else if i == 127 {
        48107
    } else if i == 128 {
        48276
    } else if i == 129 {
        48445
    } else if i == 130 {
        48612
    } else if i == 131 {
        48779
    } else if i == 132 {
        48946
    } else if i == 133 {
        49111
    } else if i == 134 {
        49276
    } else if i == 135 {
        49440
    } else if i == 136 {
        49603
    } else if i == 137 {
        49766
    } else if i == 138 {
        49928
    } else if i == 139 {
        50089
    } else if i == 140 {
        50250
    } else if i == 141 {
        50410
    } else if i == 142 {
        50569
    } else if i == 143 {
        50728
    } else if i == 144 {
        50886
    } else if i == 145 {
        51043
    } else if i == 146 {
        51200
    } else if i == 147 {
        51356
    } else if i == 148 {
        51511
    } else if i == 149 {
        51666
    } else if i == 150 {
        51821
    } else if i == 151 {
        51974
    } else if i == 152 {
        52127
    } else if i == 153 {
        52280
    } else if i == 154 {
        52432
    } else if i == 155 {
        52583
    } else if i == 156 {
        52734
    } else if i == 157 {
        52884
    } else if i == 158 {
        53034
    } else if i == 159 {
        53183
    } else if i == 160 {
        53331
    } else if i == 161 {
        53479
    } else if i == 162 {
        53627
    } else if i == 163 {
        53774
    } else if i == 164 {
        53920
    } else if i == 165 {
        54066
    } else if i == 166 {
        54211
    } else if i == 167 {
        54356
    } else if i == 168 {
        54500
    } else if i == 169 {
        54644
    } else if i == 170 {
        54788
    } else if i == 171 {
        54931
    } else if i == 172 {
        55073
    } else if i == 173 {
        55215
    } else if i == 174 {
        55356
    } else if i == 175 {
        55497
    } else if i == 176 {
        55638
    } else if i == 177 {
        55778
    } else if i == 178 {
        55917
    } else if i == 179 {
        56056
    } else if i == 180 {
        56195
    } else if i == 181 {
        56333
    } else if i == 182 {
        56471
    } else if i == 183 {
        56608
    } else if i == 184 {
        56745
    } else if i == 185 {
        56882
    } else if i == 186 {
        57018
    } else if i == 187 {
        57153
    } else if i == 188 {
        57288
    } else if i == 189 {
        57423
    } else if i == 190 {
        57558
    } else if i == 191 {
        57691
    } else if i == 192 {
        57825
    } else if i == 193 {
        57958
    } else if i == 194 {
        58091
    } else if i == 195 {
        58223
    } else if i == 196 {
        58355
    } else if i == 197 {
        58487
    } else if i == 198 {
        58618
    } else if i == 199 {
        58748
    } else if i == 200 {
        58879
    } else if i == 201 {
        59009
    } else if i == 202 {
        59138
    } else if i == 203 {
        59268
    } else if i == 204 {
        59396
    } else if i == 205 {
        59525
    } else if i == 206 {
        59653
    } else if i == 207 {
        59781
    } else if i == 208 {
        59908
    } else if i == 209 {
        60035
    } else if i == 210 {
        60162
    } else if i == 211 {
        60288
    } else if i == 212 {
        60414
    } else if i == 213 {
        60540
    } else if i == 214 {
        60665
    } else if i == 215 {
        60790
    } else if i == 216 {
        60915
    } else if i == 217 {
        61039
    } else if i == 218 {
        61163
    } else if i == 219 {
        61287
    } else if i == 220 {
        61410
    } else if i == 221 {
        61533
    } else if i == 222 {
        61656
    } else if i == 223 {
        61778
    } else if i == 224 {
        61900
    } else if i == 225 {
        62022
    } else if i == 226 {
        62143
    } else if i == 227 {
        62264
    } else if i == 228 {
        62385
    } else if i == 229 {
        62505
    } else if i == 230 {
        62625
    } else if i == 231 {
        62745
    } else if i == 232 {
        62865
    } else if i == 233 {
        62984
    } else if i == 234 {
        63103
    } else if i == 235 {
        63222
    } else if i == 236 {
        63340
    } else if i == 237 {
        63458
    } else if i == 238 {
        63576
    } else if i == 239 {
        63693
    } else if i == 240 {
        63810
    } else if i == 241 {
        63927
    } else if i == 242 {
        64044
    } else if i == 243 {
        64160
    } else if i == 244 {
        64276
    } else if i == 245 {
        64392
    } else if i == 246 {
        64508
    } else if i == 247 {
        64623
    } else if i == 248 {
        64738
    } else if i == 249 {
        64852
    } else if i == 250 {
        64967
    } else if i == 251 {
        65081
    } else if i == 252 {
        65195
    } else if i == 253 {
        65309
    } else if i == 254 {
        65422
    } else {
        65535
    }
}

/// sRGB encoding of the sixteen-bit linear value `i * 16`.
pub open spec fn encode16_low_knots(i: int) -> int {
    if i == 0 {
        0
    } else if i == 1 {
        207
    } else if i == 2 {
        413
    } else if i == 3 {
        620
    } else if i == 4 {
        827
    } else if i == 5 {
        1034
    } else if i == 6 {
        1240
    } else if i == 7 {
        1447
    } else if i == 8 {
        1654
    } else if i == 9 {
        1860
    } else if i == 10 {
        2067
    } else if i == 11 {
        2274
    } else if i == 12 {
        2481
    } else if i == 13 {
        2687
    } else if i == 14 {
        2884
    } else if i == 15 {
        3073
    } else if i == 16 {
        3255
    } else if i == 17 {
        3431
    } else if i == 18 {
        3600
    } else if i == 19 {
        3764
    } else if i == 20 {
        3923
    } else if i == 21 {
        4078
    } else if i == 22 {
        4228
    } else if i == 23 {
        4375
    } else if i == 24 {
        4518
    } else if i == 25 {
        4657
    } else if i == 26 {
        4793
    } else if i == 27 {
        4926
    } else if i == 28 {
        5056
    } else if i == 29 {
        5184
    } else if i == 30 {
        5309
    } else if i == 31 {
        5432
    } else if i == 32 {
        5552
    } else if i == 33 {
        5670
    } else if i == 34 {
        5786
    } else if i == 35 {
        5900
    } else if i == 36 {
        6013
    } else if i == 37 {
        6123
    } else if i == 38 {
        6232
    } else if i == 39 {
        6339
    } else if i == 40 {
        6444
    } else if i == 41 {
        6548
    } else if i == 42 {
        6650
    } else if i == 43 {
        6752
    } else if i == 44 {
        6851
    } else if i == 45 {
        6950
    } else if i == 46 {
        7047
    } else if i == 47 {
        7143
    } else if i == 48 {
        7237
    } else if i == 49 {
        7331
    } else if i == 50 {
        7423
    } else if i == 51 {
        7515
    } else if i == 52 {
        7605
    } else if i == 53 {
        7694
    } else if i == 54 {
        7783
    } else if i == 55 {
        7870
    } else if i == 56 {
        7956
    } else if i == 57 {
        8042
    } else if i == 58 {
        8127
    } else if i == 59 {
        8211
    } else if i == 60 {
        8294
    } else if i == 61 {
        8376
    } else if i == 62 {
        8457
    } else if i == 63 {
        8538
    } else if i == 64 {
        8618
    } else if i == 65 {
        8697
    } else if i == 66 {
        8776
    } else if i == 67 {
        8853
    } else if i == 68 {
        8931
    } else if i == 69 {
        9007
    } else if i == 70 {
        9083
    } else if i == 71 {
        9158
    } else if i == 72 {
        9233
    } else if i == 73 {
        9307
    } else if i == 74 {
        9380
    } else if i == 75 {
        9453
    } else if i == 76 {
        9525
    } else if i == 77 {
        9597
    } else if i == 78 {
        9668
    } else if i == 79 {
        9739
    } else if i == 80 {
        9809
    } else if i == 81 {
        9878
    } else if i == 82 {
        9947
    } else if i == 83 {
        10016
    } else if i == 84 {
        10084
    } else if i == 85 {
        10152
    } else if i == 86 {
        10219
    } else if i == 87 {
        10286
    } else if i == 88 {
        10352
    } else if i == 89 {
        10418
    } else if i == 90 {
        10483
    } else if i == 91 {
        10548
    } else if i == 92 {
        10613
    } else if i == 93 {
        10677
    } else if i == 94 {
        10741
    } else if i == 95 {
        10804
    } else if i == 96 {
        10867
    } else if i == 97 {
        10930
    } else if i == 98 {
        10992
    } else if i == 99 {
        11054
    } else if i == 100 {
        11116
    } else if i == 101 {
        11177
    } else if i == 102 {
        11238
    } else if i == 103 {
        11298
    } else if i == 104 {
        11358
    } else if i == 105 {
        11418
    } else if i == 106 {
        11477
    } else if i == 107 {
        11537
    } else if i == 108 {
        11595
    } else if i == 109 {
        11654
    } else if i == 110 {
        11712
    } else if i == 111 {
        11770
    } else if i == 112 {
        11827
    } else if i == 113 {
        11885
    } else if i == 114 {
        11942
    } else if i == 115 {
        11998
    } else if i == 116 {
        12055
    } else if i == 117 {
        12111
    } else if i == 118 {
        12167
    } else if i == 119 {
        12222
    } else if i == 120 {
        12278
    } else if i == 121 {
        12333
    } else if i == 122 {
        12387
    } else if i == 123 {
        12442
    } else if i == 124 {
        12496
    } else if i == 125 {
        12550
    } else if i == 126 {
        12604
    } else if i == 127 {
        12657
    } else if i == 128 {
        12710
    } else if i == 129 {
        12763
    } else if i == 130 {
        12816
    } else if i == 131 {
        12869
    } else if i == 132 {
        12921
    } else if i == 133 {
        12973
    } else if i == 134 {
        13025
    } else if i == 135 {
        13076
    } else if i == 136 {
        13128
    } else if i == 137 {
        13179
    } else if i == 138 {
        13230
    } else if i == 139 {
        13281
    } else if i == 140 {
        13331
    } else if i == 141 {
        13381
    } else if i == 142 {
        13431
    } else if i == 143 {
        13481
    } else if i == 144 {
        13531
    } else if i == 145 {
        13581
    } else if i == 146 {
        13630
    } else if i == 147 {
        13679
    } else if i == 148 {
        13728
    } else if i == 149 {
        13776
    } else if i == 150 {
        13825
    } else if i == 151 {
        13873
    } else if i == 152 {
        13921
    } else if i == 153 {
        13969
    } else if i == 154 {
        14017
    } else if i == 155 {
        14065
    } else if i == 156 {
        14112
    } else if i == 157 {
        14159
    } else if i == 158 {
        14206
    } else if i == 159 {
        14253
    } else if i == 160 {
        14300
    } else if i == 161 {
        14347
    } else if i == 162 {
        14393
    } else if i == 163 {
        14439
    } else if i == 164 {
        14485
    } else if i == 165 {
        14531
    } else if i == 166 {
        14577
    } else if i == 167 {
        14622
    } else if i == 168 {
        14668
    } else if i == 169 {
        14713
    } else if i == 170 {
        14758
    } else if i == 171 {
        14803
    } else if i == 172 {
        14848
    } else if i == 173 {
        14892
    } else if i == 174 {
        14937
    } else if i == 175 {
        14981
    } else if i == 176 {
        15025
    } else if i == 177 {
        15069
    } else if i == 178 {
        15113
    } else if i == 179 {
        15157
    } else if i == 180 {
        15201
    } else if i == 181 {
        15244
    } else if i == 182 {
        15287
    } else if i == 183 {
        15331
    } else if i == 184 {
        15374
    } else if i == 185 {
        15417
    } else if i == 186 {
        15459
    } else if i == 187 {
        15502
    } else if i == 188 {
        15544
    } else if i == 189 {
        15587
    } else if i == 190 {
        15629
    } else if i == 191 {
        15671
    } else if i == 192 {
        15713
    } else if i == 193 {
        15755
    } else if i == 194 {
        15797
    } else if i == 195 {
        15838
    } else if i == 196 {
        15880
    } else if i == 197 {
        15921
    } else if i == 198 {
        15962
    } else if i == 199 {
        16004
    } else if i == 200 {
        16045
    } else if i == 201 {
        16085
    } else if i == 202 {
        16126
    } else if i == 203 {
        16167
    } else if i == 204 {
        16207
    } else if i == 205 {
        16248
    } else if i == 206 {
        16288
    } else if i == 207 {
        16328
    } else if i == 208 {
        16368
    } else if i == 209 {
        16408
    } else if i == 210 {
        16448
    } else if i == 211 {
        16488
    } else if i == 212 {
        16527
    } else if i == 213 {
        16567
    } else if i == 214 {
        16606
    } else if i == 215 {
        16646
    } else if i == 216 {
        16685
    } else if i == 217 {
        16724
    } else if i == 218 {
        16763
    } else if i == 219 {
        16802
    } else if i == 220 {
        16841
    } else if i == 221 {
        16879
    } else if i == 222 {
        16918
    } else if i == 223 {
        16956
    } else if i == 224 {
        16995
    } else if i == 225 {
        17033
    } else if i == 226 {
        17071
    } else if i == 227 {
        17109
    } else if i == 228 {
        17147
    } else if i == 229 {
        17185
    } else if i == 230 {
        17223
    } else if i == 231 {
        17261
    } else if i == 232 {
        17298
    } else if i == 233 {
        17336
    } else if i == 234 {
        17373
    } else if i == 235 {
        17410
    } else if i == 236 {
        17448
    } else if i == 237 {
        17485
    } else if i == 238 {
        17522
    } else if i == 239 {
        17559
    } else if i == 240 {
        17595
    } else if i == 241 {
        17632
    } else if i == 242 {
        17669
    } else if i == 243 {
        17705
    } else if i == 244 {
        17742
    } else if i == 245 {
        17778
    } else if i == 246 {
        17815
    } else if i == 247 {
        17851
    } else if i == 248 {
        17887
    } else if i == 249 {
        17923
    } else if i == 250 {
        17959
    } else if i == 251 {
        17995
    } else if i == 252 {
        18031
    } else if i == 253 {
        18067
    } else if i == 254 {
        18102
    } else if i == 255 {
        18138
    } else {
        18173
    }
}

/// Linear value of the sixteen-bit sRGB value `i * 257`.
pub open spec fn decode16_knots(i: int) -> int {
    if i == 0 {
        0
    } else if i == 1 {
        20
    } else if i == 2 {
        40
    } else if i == 3 {
        60
    } else if i == 4 {
        80
    } else if i == 5 {
        99
    } else if i == 6 {
        119
    } else if i == 7 {
        139
    } else if i == 8 {
        159
    } else if i == 9 {
        179
    } else if i == 10 {
        199
    } else if i == 11 {
        219
    } else if i == 12 {
        241
    } else if i == 13 {
        264
    } else if i == 14 {
        288
    } else if i == 15 {
        313
    } else if i == 16 {
        340
    } else if i == 17 {
        367
    } else if i == 18 {
        396
    } else if i == 19 {
        427
    } else if i == 20 {
        458
    } else if i == 21 {
        491
    } else if i == 22 {
        526
    } else if i == 23 {
        562
    } else if i == 24 {
        599
    } else if i == 25 {
        637
    } else if i == 26 {
        677
    } else if i == 27 {
        718
    } else if i == 28 {
        761
    } else if i == 29 {
        805
    } else if i == 30 {
        851
    } else if i == 31 {
        898
    } else if i == 32 {
        947
    } else if i == 33 {
        997
    } else if i == 34 {
        1048
    } else if i == 35 {
        1101
    } else if i == 36 {
        1156
    } else if i == 37 {
        1212
    } else if i == 38 {
        1270
    } else if i == 39 {
        1330
    } else if i == 40 {
        1391
    } else if i == 41 {
        1453
    } else if i == 42 {
        1517
    } else if i == 43 {
        1583
    } else if i == 44 {
        1651
    } else if i == 45 {
        1720
    } else if i == 46 {
        1790
    } else if i == 47 {
        1863
    } else if i == 48 {
        1937
    } else if i == 49 {
        2013
    } else if i == 50 {
        2090
    } else if i == 51 {
        2170
    } else if i == 52 {
        2250
    } else if i == 53 {
        2333
    } else if i == 54 {
        2418
    } else if i == 55 {
        2504
    } else if i == 56 {
        2592
    } else if i == 57 {
        2681
    } else if i == 58 {
        2773
    } else if i == 59 {
        2866
    } else if i == 60 {
        2961
    } else if i == 61 {
        3058
    } else if i == 62 {
        3157
    } else if i == 63 {
        3258
    } else if i == 64 {
        3360
    } else if i == 65 {
        3464
    } else if i == 66 {
        3570
    } else if i == 67 {
        3678
    } else if i == 68 {
        3788
    } else if i == 69 {
        3900
    } else if i == 70 {
        4014
    } else if i == 71 {
        4129
    } else if i == 72 {
        4247
    } else if i == 73 {
        4366
    } else if i == 74 {
        4488
    } else if i == 75 {
        4611
    } else if i == 76 {
        4736
    } else if i == 77 {
        4864
    } else if i == 78 {
        4993
    } else if i == 79 {
        5124
    } else if i == 80 {
        5257
    } else if i == 81 {
        5392
    } else if i == 82 {
        5530
    } else if i == 83 {
        5669
    } else if i == 84 {
        5810
    } else if i == 85 {
        5953
    } else if i == 86 {
        6099
    } else if i == 87 {
        6246
    } else if i == 88 {
        6395
    } else if i == 89 {
        6547
    } else if i == 90 {
        6700
    } else if i == 91 {
        6856
    } else if i == 92 {
        7014
    } else if i == 93 {
        7174
    } else if i == 94 {
        7335
    } else if i == 95 {
        7500
    } else if i == 96 {
        7666
    } else if i == 97 {
        7834
    } else if i == 98 {
        8004
    } else if i == 99 {
        8177
    } else if i == 100 {
        8352
    } else if i == 101 {
        8528
    } else if i == 102 {
        8708
    } else if i == 103 {
        8889
    } else if i == 104 {
        9072
    } else if i == 105 {
        9258
    } else if i == 106 {
        9445
    } else if i == 107 {
        9635
    } else if i == 108 {
        9828
    } else if i == 109 {
        10022
    } else if i == 110 {
        10219
    } else if i == 111 {
        10417
    } else if i == 112 {
        10619
    } else if i == 113 {
        10822
    } else if i == 114 {
        11028
    } else if i == 115 {
        11235
    } else if i == 116 {
        11446
    } else if i == 117 {
        11658
    } else if i == 118 {
        11873
    } else if i == 119 {
        12090
    } else if i == 120 {
        12309
    } else if i == 121 {
        12530
    } else if i == 122 {
        12754
    } else if i == 123 {
        12980
    } else if i == 124 {
        13209
    } else if i == 125 {
        13440
    } else if i == 126 {
        13673
    } else if i == 127 {
        13909
    } else if i == 128 {
        14146
    } else if i == 129 {
        14387
    } else if i == 130 {
        14629
    } else if i == 131 {
        14874
    } else if i == 132 {
        15122
    } else if i == 133 {
        15371
    } else if i == 134 {
        15623
    } else if i == 135 {
        15878
    } else if i == 136 {
        16135
    } else if i == 137 {
        16394
    } else if i == 138 {
        16656
    } else if i == 139 {
        16920
    } else if i == 140 {
        17187
    } else if i == 141 {
        17456
    } else if i == 142 {
        17727
    } else if i == 143 {
        18001
    } else if i == 144 {
        18277
    } else if i == 145 {
        18556
    } else if i == 146 {
        18837
    } else if i == 147 {
        19121
    } else if i == 148 {
        19407
    } else if i == 149 {
        19696
    } else if i == 150 {
        19987
    } else if i == 151 {
        20281
    } else if i == 152 {
        20577
    } else if i == 153 {
        20876
    } else if i == 154 {
        21177
    } else if i == 155 {
        21481
    } else if i == 156 {
        21787
    } else if i == 157 {
        22096
    } else if i == 158 {
        22407
    } else if i == 159 {
        22721
    } else if i == 160 {
        23038
    } else if i == 161 {
        23357
    } else if i == 162 {
        23678
    } else if i == 163 {
        24002
    } else if i == 164 {
        24329
    } else if i == 165 {
        24658
    } else if i == 166 {
        24990
    } else if i == 167 {
        25325
    } else if i == 168 {
        25662
    } else if i == 169 {
        26001
    } else if i == 170 {
        26344
    } else if i == 171 {
        26688
    } else if i == 172 {
        27036
    } else if i == 173 {
        27386
    } else if i == 174 {
        27739
    } else if i == 175 {
        28094
    } else if i == 176 {
        28452
    } else if i == 177 {
        28813
    } else if i == 178 {
        29176
    } else if i == 179 {
        29542
    } else if i == 180 {
        29911
    } else if i == 181 {
        30282
    } else if i == 182 {
        30656
    } else if i == 183 {
        31033
    } else if i == 184 {
        31412
    } else if i == 185 {
        31794
    } else if i == 186 {
        32179
    } else if i == 187 {
        32567
    } else if i == 188 {
        32957
    } else if i == 189 {
        33350
    } else if i == 190 {
        33745
    } else if i == 191 {
        34143
    } else if i == 192 {
        34544
    } else if i == 193 {
        34948
    } else if i == 194 {
        35355
    } else if i == 195 {
        35764
    } else if i == 196 {
        36176
    } else if i == 197 {
        36591
    } else if i == 198 {
        37008
    } else if i == 199 {
        37429
    } else if i == 200 {
        37852
    } else if i == 201 {
        38278
    } else if i == 202 {
        38706
    } else if i == 203 {
        39138
    } else if i == 204 {
        39572
    } else if i == 205 {
        40009
    } else if i == 206 {
        40449
    } else if i == 207 {
        40891
    } else if i == 208 {
        41337
    } else if i == 209 {
        41785
    } else if i == 210 {
        42236
    } else if i == 211 {
        42690
    } else if i == 212 {
        43147
    } else if i == 213 {
        43606
    } else if i == 214 {
        44069
    } else if i == 215 {
        44534
    } else if i == 216 {
        45002
    } else if i == 217 {
        45473
    } else if i == 218 {
        45947
    } else if i == 219 {
        46423
    } else if i == 220 {
        46903
    } else if i == 221 {
        47385
    } else if i == 222 {
        47871
    } else if i == 223 {
        48359
    } else if i == 224 {
        48850
    } else if i == 225 {
        49344
    } else if i == 226 {
        49841
    } else if i == 227 {
        50341
    } else if i == 228 {
        50844
    } else if i == 229 {
        51349
    } else if i == 230 {
        51858
    } else if i == 231 {
        52369
    } else if i == 232 {
        52884
    } else if i == 233 {
        53401
    } else if i == 234 {
        53921
    } else if i == 235 {
        54445
    } else if i == 236 {
        54971
    } else if i == 237 {
        55500
    } else if i == 238 {
        56032
    } else if i == 239 {
        56567
    } else if i == 240 {
        57105
    } else if i == 241 {
        57646
    } else if i == 242 {
        58190
    } else if i == 243 {
        58737
    } else if i == 244 {
        59287
    } else if i == 245 {
        59840
    } else if i == 246 {
        60396
    } else if i == 247 {
        60955
    } else if i == 248 {
        61517
    } else if i == 249 {
        62082
    } else if i == 250 {
        62650
    } else if i == 251 {
        63221
    } else if i == 252 {
        63795
    } else if i == 253 {
        64372
    } else if i == 254 {
        64952
    } else {
        65535
    }
}

/// Look up `encode8_table`.
pub(crate) fn encode8_lookup(k: u8) -> (r: u8)
    ensures
        r == encode8_table(k as int),
        srgb_encoded(k as int, r as int, 255),
{
    match k {
        0 => {
            assert(srgb_encoded(0, 0, 255)) by (nonlinear_arith);
            0
        },
        1 => {
            assert(srgb_encoded(1, 13, 255)) by (nonlinear_arith);
            13
        },
        2 => {
            assert(srgb_encoded(2, 22, 255)) by (nonlinear_arith);
            22
        },
        3 => {
            assert(srgb_encoded(3, 28, 255)) by (nonlinear_arith);
            28
        },
        4 => {
            assert(srgb_encoded(4, 34, 255)) by (nonlinear_arith);
            34
        },
        5 => {
            assert(srgb_encoded(5, 38, 255)) by (nonlinear_arith);
            38
        },
        6 => {
            assert(srgb_encoded(6, 42, 255)) by (nonlinear_arith);
            42
        },
        7 => {
            assert(srgb_encoded(7, 46, 255)) by (nonlinear_arith);
            46
        },
        8 => {
            assert(srgb_encoded(8, 50, 255)) by (nonlinear_arith);
            50
        },
        9 => {
            assert(srgb_encoded(9, 53, 255)) by (nonlinear_arith);
            53
        },
        10 => {
            assert(srgb_encoded(10, 56, 255)) by (nonlinear_arith);
            56
        },
        11 => {
            assert(srgb_encoded(11, 59, 255)) by (nonlinear_arith);
            59
        },
        12 => {
            assert(srgb_encoded(12, 61, 255)) by (nonlinear_arith);
            61
        },
        13 => {
            assert(srgb_encoded(13, 64, 255)) by (nonlinear_arith);
            64
        },
        14 => {
            assert(srgb_encoded(14, 66, 255)) by (nonlinear_arith);
            66
        },
        15 => {
            assert(srgb_encoded(15, 69, 255)) by (nonlinear_arith);
            69
        },
        16 => {
            assert(srgb_encoded(16, 71, 255)) by (nonlinear_arith);
            71
        },
        17 => {
            assert(srgb_encoded(17, 73, 255)) by (nonlinear_arith);
            73
        },
        18 => {
            assert(srgb_encoded(18, 75, 255)) by (nonlinear_arith);
            75
        },
        19 => {
            assert(srgb_encoded(19, 77, 255)) by (nonlinear_arith);
            77
        },
        20 => {
            assert(srgb_encoded(20, 79, 255)) by (nonlinear_arith);
            79
        },
        21 => {
            assert(srgb_encoded(21, 81, 255)) by (nonlinear_arith);
            81
        },
        22 => {
            assert(srgb_encoded(22, 83, 255)) by (nonlinear_arith);
            83
        },
        23 => {
            assert(srgb_encoded(23, 85, 255)) by (nonlinear_arith);
            85
        },
        24 => {
            assert(srgb_encoded(24, 86, 255)) by (nonlinear_arith);
            86
        },
        25 => {
            assert(srgb_encoded(25, 88, 255)) by (nonlinear_arith);
            88
        },
        26 => {
            assert(srgb_encoded(26, 90, 255)) by (nonlinear_arith);
            90
        },
        27 => {
            assert(srgb_encoded(27, 92, 255)) by (nonlinear_arith);
            92
        },
        28 => {
            assert(srgb_encoded(28, 93, 255)) by (nonlinear_arith);
            93
        },
        29 => {
            assert(srgb_encoded(29, 95, 255)) by (nonlinear_arith);
            95
        },
        30 => {
            assert(srgb_encoded(30, 96, 255)) by (nonlinear_arith);
            96
        },
        31 => {
            assert(srgb_encoded(31, 98, 255)) by (nonlinear_arith);
            98
        },
        32 => {
            assert(srgb_encoded(32, 99, 255)) by (nonlinear_arith);
            99
        },
        33 => {
            assert(srgb_encoded(33, 101, 255)) by (nonlinear_arith);
            101
        },
        34 => {
            assert(srgb_encoded(34, 102, 255)) by (nonlinear_arith);
            102
        },
        35 => {
            assert(srgb_encoded(35, 104, 255)) by (nonlinear_arith);
            104
        },
        36 => {
            assert(srgb_encoded(36, 105, 255)) by (nonlinear_arith);
            105
        },
        37 => {
            assert(srgb_encoded(37, 106, 255)) by (nonlinear_arith);
            106
        },
        38 => {
            assert(srgb_encoded(38, 108, 255)) by (nonlinear_arith);
            108
        },
        39 => {
            assert(srgb_encoded(39, 109, 255)) by (nonlinear_arith);
            109
        },
        40 => {
            assert(srgb_encoded(40, 110, 255)) by (nonlinear_arith);
            110
        },
        41 => {
            assert(srgb_encoded(41, 112, 255)) by (nonlinear_arith);
            112
        },
        42 => {
            assert(srgb_encoded(42, 113, 255)) by (nonlinear_arith);
            113
        },
        43 => {
            assert(srgb_encoded(43, 114, 255)) by (nonlinear_arith);
            114
        },
        44 => {
            assert(srgb_encoded(44, 115, 255)) by (nonlinear_arith);
            115
        },
        45 => {
            assert(srgb_encoded(45, 117, 255)) by (nonlinear_arith);
            117
        },
        46 => {
            assert(srgb_encoded(46, 118, 255)) by (nonlinear_arith);
            118
        },
        47 => {
            assert(srgb_encoded(47, 119, 255)) by (nonlinear_arith);
            119
        },
        48 => {
            assert(srgb_encoded(48, 120, 255)) by (nonlinear_arith);
            120
        },
        49 => {
            assert(srgb_encoded(49, 121, 255)) by (nonlinear_arith);
            121
        },
        50 => {
            assert(srgb_encoded(50, 122, 255)) by (nonlinear_arith);
            122
        },
        51 => {
            assert(srgb_encoded(51, 124, 255)) by (nonlinear_arith);
            124
        },
        52 => {
            assert(srgb_encoded(52, 125, 255)) by (nonlinear_arith);
            125
        },
        53 => {
            assert(srgb_encoded(53, 126, 255)) by (nonlinear_arith);
            126
        },
        54 => {
            assert(srgb_encoded(54, 127, 255)) by (nonlinear_arith);
            127
        },
        55 => {
            assert(srgb_encoded(55, 128, 255)) by (nonlinear_arith);
            128
        },
        56 => {
            assert(srgb_encoded(56, 129, 255)) by (nonlinear_arith);
            129
        },
        57 => {
            assert(srgb_encoded(57, 130, 255)) by (nonlinear_arith);
            130
        },
        58 => {
            assert(srgb_encoded(58, 131, 255)) by (nonlinear_arith);
            131
        },
        59 => {
            assert(srgb_encoded(59, 132, 255)) by (nonlinear_arith);
            132
        },
        60 => {
            assert(srgb_encoded(60, 133, 255)) by (nonlinear_arith);
            133
        },
        61 => {
            assert(srgb_encoded(61, 134, 255)) by (nonlinear_arith);
            134
        },
        62 => {
            assert(srgb_encoded(62, 135, 255)) by (nonlinear_arith);
            135
        },
        63 => {
            assert(srgb_encoded(63, 136, 255)) by (nonlinear_arith);
            136
        },
        64 => {
            assert(srgb_encoded(64, 137, 255)) by (nonlinear_arith);
            137
        },
        65 => {
            assert(srgb_encoded(65, 138, 255)) by (nonlinear_arith);
            138
        },
        66 => {
            assert(srgb_encoded(66, 139, 255)) by (nonlinear_arith);
            139
        },
        67 => {
            assert(srgb_encoded(67, 140, 255)) by (nonlinear_arith);
            140
        },
        68 => {
            assert(srgb_encoded(68, 141, 255)) by (nonlinear_arith);
            141
        },
        69 => {
            assert(srgb_encoded(69, 142, 255)) by (nonlinear_arith);
            142
        },
        70 => {
            assert(srgb_encoded(70, 143, 255)) by (nonlinear_arith);
            143
        },
        71 => {
            assert(srgb_encoded(71, 144, 255)) by (nonlinear_arith);
            144
        },
        72 => {
            assert(srgb_encoded(72, 145, 255)) by (nonlinear_arith);
            145
        },
        73 => {
            assert(srgb_encoded(73, 146, 255)) by (nonlinear_arith);
            146
        },
        74 => {
            assert(srgb_encoded(74, 147, 255)) by (nonlinear_arith);
            147
        },
        75 => {
            assert(srgb_encoded(75, 148, 255)) by (nonlinear_arith);
            148
        },
        76 => {
            assert(srgb_encoded(76, 148, 255)) by (nonlinear_arith);
            148
        },
        77 => {
            assert(srgb_encoded(77, 149, 255)) by (nonlinear_arith);
            149
        },
        78 => {
            assert(srgb_encoded(78, 150, 255)) by (nonlinear_arith);
            150
        },
        79 => {
            assert(srgb_encoded(79, 151, 255)) by (nonlinear_arith);
            151
        },
        80 => {
            assert(srgb_encoded(80, 152, 255)) by (nonlinear_arith);
            152
        },
        81 => {
            assert(srgb_encoded(81, 153, 255)) by (nonlinear_arith);
            153
        },
        82 => {
            assert(srgb_encoded(82, 154, 255)) by (nonlinear_arith);
            154
        },
        83 => {
            assert(srgb_encoded(83, 155, 255)) by (nonlinear_arith);
            155
        },
        84 => {
            assert(srgb_encoded(84, 155, 255)) by (nonlinear_arith);
            155
        },
        85 => {
            assert(srgb_encoded(85, 156, 255)) by (nonlinear_arith);
            156
        },
        86 => {
            assert(srgb_encoded(86, 157, 255)) by (nonlinear_arith);
            157
        },
        87 => {
            assert(srgb_encoded(87, 158, 255)) by (nonlinear_arith);
            158
        },
        88 => {
            assert(srgb_encoded(88, 159, 255)) by (nonlinear_arith);
            159
        },
        89 => {
            assert(srgb_encoded(89, 159, 255)) by (nonlinear_arith);
            159
        },
        90 => {
            assert(srgb_encoded(90, 160, 255)) by (nonlinear_arith);
            160
        },
        91 => {
            assert(srgb_encoded(91, 161, 255)) by (nonlinear_arith);
            161
        },
        92 => {
            assert(srgb_encoded(92, 162, 255)) by (nonlinear_arith);
            162
        },
        93 => {
            assert(srgb_encoded(93, 163, 255)) by (nonlinear_arith);
            163
        },
        94 => {
            assert(srgb_encoded(94, 163, 255)) by (nonlinear_arith);
            163
        },
        95 => {
            assert(srgb_encoded(95, 164, 255)) by (nonlinear_arith);
            164
        },
        96 => {
            assert(srgb_encoded(96, 165, 255)) by (nonlinear_arith);
            165
        },
        97 => {
            assert(srgb_encoded(97, 166, 255)) by (nonlinear_arith);
            166
        },
        98 => {
            assert(srgb_encoded(98, 167, 255)) by (nonlinear_arith);
            167
        },
        99 => {
            assert(srgb_encoded(99, 167, 255)) by (nonlinear_arith);
            167
        },
        100 => {
            assert(srgb_encoded(100, 168, 255)) by (nonlinear_arith);
            168
        },
        101 => {
            assert(srgb_encoded(101, 169, 255)) by (nonlinear_arith);
            169
        },
        102 => {
            assert(srgb_encoded(102, 170, 255)) by (nonlinear_arith);
            170
        },
        103 => {
            assert(srgb_encoded(103, 170, 255)) by (nonlinear_arith);
            170
        },
        104 => {
            assert(srgb_encoded(104, 171, 255)) by (nonlinear_arith);
            171
        },
        105 => {
            assert(srgb_encoded(105, 172, 255)) by (nonlinear_arith);
            172
        },
        106 => {
            assert(srgb_encoded(106, 173, 255)) by (nonlinear_arith);
            173
        },
        107 => {
            assert(srgb_encoded(107, 173, 255)) by (nonlinear_arith);
            173
        },
        108 => {
            assert(srgb_encoded(108, 174, 255)) by (nonlinear_arith);
            174
        },
        109 => {
            assert(srgb_encoded(109, 175, 255)) by (nonlinear_arith);
            175
        },
        110 => {
            assert(srgb_encoded(110, 175, 255)) by (nonlinear_arith);
            175
        },
        111 => {
            assert(srgb_encoded(111, 176, 255)) by (nonlinear_arith);
            176
        },
        112 => {
            assert(srgb_encoded(112, 177, 255)) by (nonlinear_arith);
            177
        },
        113 => {
            assert(srgb_encoded(113, 178, 255)) by (nonlinear_arith);
            178
        },
        114 => {
            assert(srgb_encoded(114, 178, 255)) by (nonlinear_arith);
            178
        },
        115 => {
            assert(srgb_encoded(115, 179, 255)) by (nonlinear_arith);
            179
        },
        116 => {
            assert(srgb_encoded(116, 180, 255)) by (nonlinear_arith);
            180
        },
        117 => {
            assert(srgb_encoded(117, 180, 255)) by (nonlinear_arith);
            180
        },
        118 => {
            assert(srgb_encoded(118, 181, 255)) by (nonlinear_arith);
            181
        },
        119 => {
            assert(srgb_encoded(119, 182, 255)) by (nonlinear_arith);
            182
        },
        120 => {
            assert(srgb_encoded(120, 182, 255)) by (nonlinear_arith);
            182
        },
        121 => {
            assert(srgb_encoded(121, 183, 255)) by (nonlinear_arith);
            183
        },
        122 => {
            assert(srgb_encoded(122, 184, 255)) by (nonlinear_arith);
            184
        },
        123 => {
            assert(srgb_encoded(123, 185, 255)) by (nonlinear_arith);
            185
        },
        124 => {
            assert(srgb_encoded(124, 185, 255)) by (nonlinear_arith);
            185
        },
        125 => {
            assert(srgb_encoded(125, 186, 255)) by (nonlinear_arith);
            186
        },
        126 => {
            assert(srgb_encoded(126, 187, 255)) by (nonlinear_arith);
            187
        },
        127 => {
            assert(srgb_encoded(127, 187, 255)) by (nonlinear_arith);
            187
        },
        128 => {
            assert(srgb_encoded(128, 188, 255)) by (nonlinear_arith);
            188
        },
        129 => {
            assert(srgb_encoded(129, 189, 255)) by (nonlinear_arith);
            189
        },
        130 => {
            assert(srgb_encoded(130, 189, 255)) by (nonlinear_arith);
            189
        },
        131 => {
            assert(srgb_encoded(131, 190, 255)) by (nonlinear_arith);
            190
        },
        132 => {
            assert(srgb_encoded(132, 190, 255)) by (nonlinear_arith);
            190
        },
        133 => {
            assert(srgb_encoded(133, 191, 255)) by (nonlinear_arith);
            191
        },
        134 => {
            assert(srgb_encoded(134, 192, 255)) by (nonlinear_arith);
            192
        },
        135 => {
            assert(srgb_encoded(135, 192, 255)) by (nonlinear_arith);
            192
        },
        136 => {
            assert(srgb_encoded(136, 193, 255)) by (nonlinear_arith);
            193
        },
        137 => {
            assert(srgb_encoded(137, 194, 255)) by (nonlinear_arith);
            194
        },
        138 => {
            assert(srgb_encoded(138, 194, 255)) by (nonlinear_arith);
            194
        },
        139 => {
            assert(srgb_encoded(139, 195, 255)) by (nonlinear_arith);
            195
        },
        140 => {
            assert(srgb_encoded(140, 196, 255)) by (nonlinear_arith);
            196
        },
        141 => {
            assert(srgb_encoded(141, 196, 255)) by (nonlinear_arith);
            196
        },
        142 => {
            assert(srgb_encoded(142, 197, 255)) by (nonlinear_arith);
            197
        },
        143 => {
            assert(srgb_encoded(143, 197, 255)) by (nonlinear_arith);
            197
        },
        144 => {
            assert(srgb_encoded(144, 198, 255)) by (nonlinear_arith);
            198
        },
        145 => {
            assert(srgb_encoded(145, 199, 255)) by (nonlinear_arith);
            199
        },
        146 => {
            assert(srgb_encoded(146, 199, 255)) by (nonlinear_arith);
            199
        },
        147 => {
            assert(srgb_encoded(147, 200, 255)) by (nonlinear_arith);
            200
        },
        148 => {
            assert(srgb_encoded(148, 200, 255)) by (nonlinear_arith);
            200
        },
        149 => {
            assert(srgb_encoded(149, 201, 255)) by (nonlinear_arith);
            201
        },
        150 => {
            assert(srgb_encoded(150, 202, 255)) by (nonlinear_arith);
            202
        },
        151 => {
            assert(srgb_encoded(151, 202, 255)) by (nonlinear_arith);
            202
        },
        152 => {
            assert(srgb_encoded(152, 203, 255)) by (nonlinear_arith);
            203
        },
        153 => {
            assert(srgb_encoded(153, 203, 255)) by (nonlinear_arith);
            203
        },
        154 => {
            assert(srgb_encoded(154, 204, 255)) by (nonlinear_arith);
            204
        },
        155 => {
            assert(srgb_encoded(155, 205, 255)) by (nonlinear_arith);
            205
        },
        156 => {
            assert(srgb_encoded(156, 205, 255)) by (nonlinear_arith);
            205
        },
        157 => {
            assert(srgb_encoded(157, 206, 255)) by (nonlinear_arith);
            206
        },
        158 => {
            assert(srgb_encoded(158, 206, 255)) by (nonlinear_arith);
            206
        },
        159 => {
            assert(srgb_encoded(159, 207, 255)) by (nonlinear_arith);
            207
        },
        160 => {
            assert(srgb_encoded(160, 208, 255)) by (nonlinear_arith);
            208
        },
        161 => {
            assert(srgb_encoded(161, 208, 255)) by (nonlinear_arith);
            208
        },
        162 => {
            assert(srgb_encoded(162, 209, 255)) by (nonlinear_arith);
            209
        },
        163 => {
            assert(srgb_encoded(163, 209, 255)) by (nonlinear_arith);
            209
        },
        164 => {
            assert(srgb_encoded(164, 210, 255)) by (nonlinear_arith);
            210
        },
        165 => {
            assert(srgb_encoded(165, 210, 255)) by (nonlinear_arith);
            210
        },
        166 => {
            assert(srgb_encoded(166, 211, 255)) by (nonlinear_arith);
            211
        },
        167 => {
            assert(srgb_encoded(167, 212, 255)) by (nonlinear_arith);
            212
        },
        168 => {
            assert(srgb_encoded(168, 212, 255)) by (nonlinear_arith);
            212
        },
        169 => {
            assert(srgb_encoded(169, 213, 255)) by (nonlinear_arith);
            213
        },
        170 => {
            assert(srgb_encoded(170, 213, 255)) by (nonlinear_arith);
            213
        },
        171 => {
            assert(srgb_encoded(171, 214, 255)) by (nonlinear_arith);
            214
        },
        172 => {
            assert(srgb_encoded(172, 214, 255)) by (nonlinear_arith);
            214
        },
        173 => {
            assert(srgb_encoded(173, 215, 255)) by (nonlinear_arith);
            215
        },
        174 => {
            assert(srgb_encoded(174, 215, 255)) by (nonlinear_arith);
            215
        },
        175 => {
            assert(srgb_encoded(175, 216, 255)) by (nonlinear_arith);
            216
        },
        176 => {
            assert(srgb_encoded(176, 216, 255)) by (nonlinear_arith);
            216
        },
        177 => {
            assert(srgb_encoded(177, 217, 255)) by (nonlinear_arith);
            217
        },
        178 => {
            assert(srgb_encoded(178, 218, 255)) by (nonlinear_arith);
            218
        },
        179 => {
            assert(srgb_encoded(179, 218, 255)) by (nonlinear_arith);
            218
        },
        180 => {
            assert(srgb_encoded(180, 219, 255)) by (nonlinear_arith);
            219
        },
        181 => {
            assert(srgb_encoded(181, 219, 255)) by (nonlinear_arith);
            219
        },
        182 => {
            assert(srgb_encoded(182, 220, 255)) by (nonlinear_arith);
            220
        },
        183 => {
            assert(srgb_encoded(183, 220, 255)) by (nonlinear_arith);
            220
        },
        184 => {
            assert(srgb_encoded(184, 221, 255)) by (nonlinear_arith);
            221
        },
        185 => {
            assert(srgb_encoded(185, 221, 255)) by (nonlinear_arith);
            221
        },
        186 => {
            assert(srgb_encoded(186, 222, 255)) by (nonlinear_arith);
            222
        },
        187 => {
            assert(srgb_encoded(187, 222, 255)) by (nonlinear_arith);
            222
        },
        188 => {
            assert(srgb_encoded(188, 223, 255)) by (nonlinear_arith);
            223
        },
        189 => {
            assert(srgb_encoded(189, 223, 255)) by (nonlinear_arith);
            223
        },
        190 => {
            assert(srgb_encoded(190, 224, 255)) by (nonlinear_arith);
            224
        },
        191 => {
            assert(srgb_encoded(191, 224, 255)) by (nonlinear_arith);
            224
        },
        192 => {
            assert(srgb_encoded(192, 225, 255)) by (nonlinear_arith);
            225
        },
        193 => {
            assert(srgb_encoded(193, 226, 255)) by (nonlinear_arith);
            226
        },
        194 => {
            assert(srgb_encoded(194, 226, 255)) by (nonlinear_arith);
            226
        },
        195 => {
            assert(srgb_encoded(195, 227, 255)) by (nonlinear_arith);
            227
        },
        196 => {
            assert(srgb_encoded(196, 227, 255)) by (nonlinear_arith);
            227
        },
        197 => {
            assert(srgb_encoded(197, 228, 255)) by (nonlinear_arith);
            228
        },
        198 => {
            assert(srgb_encoded(198, 228, 255)) by (nonlinear_arith);
            228
        },
        199 => {
            assert(srgb_encoded(199, 229, 255)) by (nonlinear_arith);
            229
        },
        200 => {
            assert(srgb_encoded(200, 229, 255)) by (nonlinear_arith);
            229
        },
        201 => {
            assert(srgb_encoded(201, 230, 255)) by (nonlinear_arith);
            230
        },
        202 => {
            assert(srgb_encoded(202, 230, 255)) by (nonlinear_arith);
            230
        },
        203 => {
            assert(srgb_encoded(203, 231, 255)) by (nonlinear_arith);
            231
        },
        204 => {
            assert(srgb_encoded(204, 231, 255)) by (nonlinear_arith);
            231
        },
        205 => {
            assert(srgb_encoded(205, 232, 255)) by (nonlinear_arith);
            232
        },
        206 => {
            assert(srgb_encoded(206, 232, 255)) by (nonlinear_arith);
            232
        },
        207 => {
            assert(srgb_encoded(207, 233, 255)) by (nonlinear_arith);
            233
        },
        208 => {
            assert(srgb_encoded(208, 233, 255)) by (nonlinear_arith);
            233
        },
        209 => {
            assert(srgb_encoded(209, 234, 255)) by (nonlinear_arith);
            234
        },
        210 => {
            assert(srgb_encoded(210, 234, 255)) by (nonlinear_arith);
            234
        },
        211 => {
            assert(srgb_encoded(211, 235, 255)) by (nonlinear_arith);
            235
        },
        212 => {
            assert(srgb_encoded(212, 235, 255)) by (nonlinear_arith);
            235
        },
        213 => {
            assert(srgb_encoded(213, 236, 255)) by (nonlinear_arith);
            236
        },
        214 => {
            assert(srgb_encoded(214, 236, 255)) by (nonlinear_arith);
            236
        },
        215 => {
            assert(srgb_encoded(215, 237, 255)) by (nonlinear_arith);
            237
        },
        216 => {
            assert(srgb_encoded(216, 237, 255)) by (nonlinear_arith);
            237
        },
        217 => {
            assert(srgb_encoded(217, 238, 255)) by (nonlinear_arith);
            238
        },
        218 => {
            assert(srgb_encoded(218, 238, 255)) by (nonlinear_arith);
            238
        },
        219 => {
            assert(srgb_encoded(219, 238, 255)) by (nonlinear_arith);
            238
        },
        220 => {
            assert(srgb_encoded(220, 239, 255)) by (nonlinear_arith);
            239
        },
        221 => {
            assert(srgb_encoded(221, 239, 255)) by (nonlinear_arith);
            239
        },
        222 => {
            assert(srgb_encoded(222, 240, 255)) by (nonlinear_arith);
            240
        },
        223 => {
            assert(srgb_encoded(223, 240, 255)) by (nonlinear_arith);
            240
        },
        224 => {
            assert(srgb_encoded(224, 241, 255)) by (nonlinear_arith);
            241
        },
        225 => {
            assert(srgb_encoded(225, 241, 255)) by (nonlinear_arith);
            241
        },
        226 => {
            assert(srgb_encoded(226, 242, 255)) by (nonlinear_arith);
            242
        },
        227 => {
            assert(srgb_encoded(227, 242, 255)) by (nonlinear_arith);
            242
        },
        228 => {
            assert(srgb_encoded(228, 243, 255)) by (nonlinear_arith);
            243
        },
        229 => {
            assert(srgb_encoded(229, 243, 255)) by (nonlinear_arith);
            243
        },
        230 => {
            assert(srgb_encoded(230, 244, 255)) by (nonlinear_arith);
            244
        },
        231 => {
            assert(srgb_encoded(231, 244, 255)) by (nonlinear_arith);
            244
        },
        232 => {
            assert(srgb_encoded(232, 245, 255)) by (nonlinear_arith);
            245
        },
        233 => {
            assert(srgb_encoded(233, 245, 255)) by (nonlinear_arith);
            245
        },
        234 => {
            assert(srgb_encoded(234, 246, 255)) by (nonlinear_arith);
            246
        },
        235 => {
            assert(srgb_encoded(235, 246, 255)) by (nonlinear_arith);
            246
        },
        236 => {
            assert(srgb_encoded(236, 246, 255)) by (nonlinear_arith);
            246
        },
        237 => {
            assert(srgb_encoded(237, 247, 255)) by (nonlinear_arith);
            247
        },
        238 => {
            assert(srgb_encoded(238, 247, 255)) by (nonlinear_arith);
            247
        },
        239 => {
            assert(srgb_encoded(239, 248, 255)) by (nonlinear_arith);
            248
        },
        240 => {
            assert(srgb_encoded(240, 248, 255)) by (nonlinear_arith);
            248
        },
        241 => {
            assert(srgb_encoded(241, 249, 255)) by (nonlinear_arith);
            249
        },
        242 => {
            assert(srgb_encoded(242, 249, 255)) by (nonlinear_arith);
            249
        },
        243 => {
            assert(srgb_encoded(243, 250, 255)) by (nonlinear_arith);
            250
        },
        244 => {
            assert(srgb_encoded(244, 250, 255)) by (nonlinear_arith);
            250
        },
        245 => {
            assert(srgb_encoded(245, 251, 255)) by (nonlinear_arith);
            251
        },
        246 => {
            assert(srgb_encoded(246, 251, 255)) by (nonlinear_arith);
            251
        },
        247 => {
            assert(srgb_encoded(247, 251, 255)) by (nonlinear_arith);
            251
        },
        248 => {
            assert(srgb_encoded(248, 252, 255)) by (nonlinear_arith);
            252
        },
        249 => {
            assert(srgb_encoded(249, 252, 255)) by (nonlinear_arith);
            252
        },
        250 => {
            assert(srgb_encoded(250, 253, 255)) by (nonlinear_arith);
            253
        },
        251 => {
            assert(srgb_encoded(251, 253, 255)) by (nonlinear_arith);
            253
        },
        252 => {
            assert(srgb_encoded(252, 254, 255)) by (nonlinear_arith);
            254
        },
        253 => {
            assert(srgb_encoded(253, 254, 255)) by (nonlinear_arith);
            254
        },
        254 => {
            assert(srgb_encoded(254, 255, 255)) by (nonlinear_arith);
            255
        },
        _ => {
            assert(srgb_encoded(255, 255, 255)) by (nonlinear_arith);
            255
        },
    }
}

/// Look up `decode8_table`.
pub(crate) fn decode8_lookup(k: u8) -> (r: u8)
    ensures
        r == decode8_table(k as int),
        srgb_decoded(k as int, r as int, 255),
{
    match k {
        0 => {
            assert(srgb_decoded(0, 0, 255)) by (nonlinear_arith);
            0
        },
        1 => {
            assert(srgb_decoded(1, 0, 255)) by (nonlinear_arith);
            0
        },
        2 => {
            assert(srgb_decoded(2, 0, 255)) by (nonlinear_arith);
            0
        },
        3 => {
            assert(srgb_decoded(3, 0, 255)) by (nonlinear_arith);
            0
        },
        4 => {
            assert(srgb_decoded(4, 0, 255)) by (nonlinear_arith);
            0
        },
        5 => {
            assert(srgb_decoded(5, 0, 255)) by (nonlinear_arith);
            0
        },
        6 => {
            assert(srgb_decoded(6, 0, 255)) by (nonlinear_arith);
            0
        },
        7 => {
            assert(srgb_decoded(7, 1, 255)) by (nonlinear_arith);
            1
        },
        8 => {
            assert(srgb_decoded(8, 1, 255)) by (nonlinear_arith);
            1
        },
        9 => {
            assert(srgb_decoded(9, 1, 255)) by (nonlinear_arith);
            1
        },
        10 => {
            assert(srgb_decoded(10, 1, 255)) by (nonlinear_arith);
            1
        },
        11 => {
            assert(srgb_decoded(11, 1, 255)) by (nonlinear_arith);
            1
        },
        12 => {
            assert(srgb_decoded(12, 1, 255)) by (nonlinear_arith);
            1
        },
        13 => {
            assert(srgb_decoded(13, 1, 255)) by (nonlinear_arith);
            1
        },
        14 => {
            assert(srgb_decoded(14, 1, 255)) by (nonlinear_arith);
            1
        },
        15 => {
            assert(srgb_decoded(15, 1, 255)) by (nonlinear_arith);
            1
        },
        16 => {
            assert(srgb_decoded(16, 1, 255)) by (nonlinear_arith);
            1
        },
        17 => {
            assert(srgb_decoded(17, 1, 255)) by (nonlinear_arith);
            1
        },
        18 => {
            assert(srgb_decoded(18, 2, 255)) by (nonlinear_arith);
            2
        },
        19 => {
            assert(srgb_decoded(19, 2, 255)) by (nonlinear_arith);
            2
        },
        20 => {
            assert(srgb_decoded(20, 2, 255)) by (nonlinear_arith);
            2
        },
        21 => {
            assert(srgb_decoded(21, 2, 255)) by (nonlinear_arith);
            2
        },
        22 => {
            assert(srgb_decoded(22, 2, 255)) by (nonlinear_arith);
            2
        },
        23 => {
            assert(srgb_decoded(23, 2, 255)) by (nonlinear_arith);
            2
        },
        24 => {
            assert(srgb_decoded(24, 2, 255)) by (nonlinear_arith);
            2
        },
        25 => {
            assert(srgb_decoded(25, 2, 255)) by (nonlinear_arith);
            2
        },
        26 => {
            assert(srgb_decoded(26, 3, 255)) by (nonlinear_arith);
            3
        },
        27 => {
            assert(srgb_decoded(27, 3, 255)) by (nonlinear_arith);
            3
        },
        28 => {
            assert(srgb_decoded(28, 3, 255)) by (nonlinear_arith);
            3
        },
        29 => {
            assert(srgb_decoded(29, 3, 255)) by (nonlinear_arith);
            3
        },
        30 => {
            assert(srgb_decoded(30, 3, 255)) by (nonlinear_arith);
            3
        },
        31 => {
            assert(srgb_decoded(31, 3, 255)) by (nonlinear_arith);
            3
        },
        32 => {
            assert(srgb_decoded(32, 4, 255)) by (nonlinear_arith);
            4
        },
        33 => {
            assert(srgb_decoded(33, 4, 255)) by (nonlinear_arith);
            4
        },
        34 => {
            assert(srgb_decoded(34, 4, 255)) by (nonlinear_arith);
            4
        },
        35 => {
            assert(srgb_decoded(35, 4, 255)) by (nonlinear_arith);
            4
        },
        36 => {
            assert(srgb_decoded(36, 4, 255)) by (nonlinear_arith);
            4
        },
        37 => {
            assert(srgb_decoded(37, 5, 255)) by (nonlinear_arith);
            5
        },
        38 => {
            assert(srgb_decoded(38, 5, 255)) by (nonlinear_arith);
            5
        },
        39 => {
            assert(srgb_decoded(39, 5, 255)) by (nonlinear_arith);
            5
        },
        40 => {
            assert(srgb_decoded(40, 5, 255)) by (nonlinear_arith);
            5
        },
        41 => {
            assert(srgb_decoded(41, 6, 255)) by (nonlinear_arith);
            6
        },
        42 => {
            assert(srgb_decoded(42, 6, 255)) by (nonlinear_arith);
            6
        },
        43 => {
            assert(srgb_decoded(43, 6, 255)) by (nonlinear_arith);
            6
        },
        44 => {
            assert(srgb_decoded(44, 6, 255)) by (nonlinear_arith);
            6
        },
        45 => {
            assert(srgb_decoded(45, 7, 255)) by (nonlinear_arith);
            7
        },
        46 => {
            assert(srgb_decoded(46, 7, 255)) by (nonlinear_arith);
            7
        },
        47 => {
            assert(srgb_decoded(47, 7, 255)) by (nonlinear_arith);
            7
        },
        48 => {
            assert(srgb_decoded(48, 8, 255)) by (nonlinear_arith);
            8
        },
        49 => {
            assert(srgb_decoded(49, 8, 255)) by (nonlinear_arith);
            8
        },
        50 => {
            assert(srgb_decoded(50, 8, 255)) by (nonlinear_arith);
            8
        },
        51 => {
            assert(srgb_decoded(51, 8, 255)) by (nonlinear_arith);
            8
        },
        52 => {
            assert(srgb_decoded(52, 9, 255)) by (nonlinear_arith);
            9
        },
        53 => {
            assert(srgb_decoded(53, 9, 255)) by (nonlinear_arith);
            9
        },
        54 => {
            assert(srgb_decoded(54, 9, 255)) by (nonlinear_arith);
            9
        },
        55 => {
            assert(srgb_decoded(55, 10, 255)) by (nonlinear_arith);
            10
        },
        56 => {
            assert(srgb_decoded(56, 10, 255)) by (nonlinear_arith);
            10
        },
        57 => {
            assert(srgb_decoded(57, 10, 255)) by (nonlinear_arith);
            10
        },
        58 => {
            assert(srgb_decoded(58, 11, 255)) by (nonlinear_arith);
            11
        },
        59 => {
            assert(srgb_decoded(59, 11, 255)) by (nonlinear_arith);
            11
        },
        60 => {
            assert(srgb_decoded(60, 12, 255)) by (nonlinear_arith);
            12
        },
        61 => {
            assert(srgb_decoded(61, 12, 255)) by (nonlinear_arith);
            12
        },
        62 => {
            assert(srgb_decoded(62, 12, 255)) by (nonlinear_arith);
            12
        },
        63 => {
            assert(srgb_decoded(63, 13, 255)) by (nonlinear_arith);
            13
        },
        64 => {
            assert(srgb_decoded(64, 13, 255)) by (nonlinear_arith);
            13
        },
        65 => {
            assert(srgb_decoded(65, 13, 255)) by (nonlinear_arith);
            13
        },
        66 => {
            assert(srgb_decoded(66, 14, 255)) by (nonlinear_arith);
            14
        },
        67 => {
            assert(srgb_decoded(67, 14, 255)) by (nonlinear_arith);
            14
        },
        68 => {
            assert(srgb_decoded(68, 15, 255)) by (nonlinear_arith);
            15
        },
        69 => {
            assert(srgb_decoded(69, 15, 255)) by (nonlinear_arith);
            15
        },
        70 => {
            assert(srgb_decoded(70, 16, 255)) by (nonlinear_arith);
            16
        },
        71 => {
            assert(srgb_decoded(71, 16, 255)) by (nonlinear_arith);
            16
        },
        72 => {
            assert(srgb_decoded(72, 17, 255)) by (nonlinear_arith);
            17
        },
        73 => {
            assert(srgb_decoded(73, 17, 255)) by (nonlinear_arith);
            17
        },
        74 => {
            assert(srgb_decoded(74, 17, 255)) by (nonlinear_arith);
            17
        },
        75 => {
            assert(srgb_decoded(75, 18, 255)) by (nonlinear_arith);
            18
        },
        76 => {
            assert(srgb_decoded(76, 18, 255)) by (nonlinear_arith);
            18
        },
        77 => {
            assert(srgb_decoded(77, 19, 255)) by (nonlinear_arith);
            19
        },
        78 => {
            assert(srgb_decoded(78, 19, 255)) by (nonlinear_arith);
            19
        },
        79 => {
            assert(srgb_decoded(79, 20, 255)) by (nonlinear_arith);
            20
        },
        80 => {
            assert(srgb_decoded(80, 20, 255)) by (nonlinear_arith);
            20
        },
        81 => {
            assert(srgb_decoded(81, 21, 255)) by (nonlinear_arith);
            21
        },
        82 => {
            assert(srgb_decoded(82, 22, 255)) by (nonlinear_arith);
            22
        },
        83 => {
            assert(srgb_decoded(83, 22, 255)) by (nonlinear_arith);
            22
        },
        84 => {
            assert(srgb_decoded(84, 23, 255)) by (nonlinear_arith);
            23
        },
        85 => {
            assert(srgb_decoded(85, 23, 255)) by (nonlinear_arith);
            23
        },
        86 => {
            assert(srgb_decoded(86, 24, 255)) by (nonlinear_arith);
            24
        },
        87 => {
            assert(srgb_decoded(87, 24, 255)) by (nonlinear_arith);
            24
        },
        88 => {
            assert(srgb_decoded(88, 25, 255)) by (nonlinear_arith);
            25
        },
        89 => {
            assert(srgb_decoded(89, 25, 255)) by (nonlinear_arith);
            25
        },
        90 => {
            assert(srgb_decoded(90, 26, 255)) by (nonlinear_arith);
            26
        },
        91 => {
            assert(srgb_decoded(91, 27, 255)) by (nonlinear_arith);
            27
        },
        92 => {
            assert(srgb_decoded(92, 27, 255)) by (nonlinear_arith);
            27
        },
        93 => {
            assert(srgb_decoded(93, 28, 255)) by (nonlinear_arith);
            28
        },
        94 => {
            assert(srgb_decoded(94, 29, 255)) by (nonlinear_arith);
            29
        },
        95 => {
            assert(srgb_decoded(95, 29, 255)) by (nonlinear_arith);
            29
        },
        96 => {
            assert(srgb_decoded(96, 30, 255)) by (nonlinear_arith);
            30
        },
        97 => {
            assert(srgb_decoded(97, 30, 255)) by (nonlinear_arith);
            30
        },
        98 => {
            assert(srgb_decoded(98, 31, 255)) by (nonlinear_arith);
            31
        },
        99 => {
            assert(srgb_decoded(99, 32, 255)) by (nonlinear_arith);
            32
        },
        100 => {
            assert(srgb_decoded(100, 32, 255)) by (nonlinear_arith);
            32
        },
        101 => {
            assert(srgb_decoded(101, 33, 255)) by (nonlinear_arith);
            33
        },
        102 => {
            assert(srgb_decoded(102, 34, 255)) by (nonlinear_arith);
            34
        },
        103 => {
            assert(srgb_decoded(103, 35, 255)) by (nonlinear_arith);
            35
        },
        104 => {
            assert(srgb_decoded(104, 35, 255)) by (nonlinear_arith);
            35
        },
        105 => {
            assert(srgb_decoded(105, 36, 255)) by (nonlinear_arith);
            36
        },
        106 => {
            assert(srgb_decoded(106, 37, 255)) by (nonlinear_arith);
            37
        },
        107 => {
            assert(srgb_decoded(107, 37, 255)) by (nonlinear_arith);
            37
        },
        108 => {
            assert(srgb_decoded(108, 38, 255)) by (nonlinear_arith);
            38
        },
        109 => {
            assert(srgb_decoded(109, 39, 255)) by (nonlinear_arith);
            39
        },
        110 => {
            assert(srgb_decoded(110, 40, 255)) by (nonlinear_arith);
            40
        },
        111 => {
            assert(srgb_decoded(111, 41, 255)) by (nonlinear_arith);
            41
        },
        112 => {
            assert(srgb_decoded(112, 41, 255)) by (nonlinear_arith);
            41
        },
        113 => {
            assert(srgb_decoded(113, 42, 255)) by (nonlinear_arith);
            42
        },
        114 => {
            assert(srgb_decoded(114, 43, 255)) by (nonlinear_arith);
            43
        },
        115 => {
            assert(srgb_decoded(115, 44, 255)) by (nonlinear_arith);
            44
        },
        116 => {
            assert(srgb_decoded(116, 45, 255)) by (nonlinear_arith);
            45
        },
        117 => {
            assert(srgb_decoded(117, 45, 255)) by (nonlinear_arith);
            45
        },
        118 => {
            assert(srgb_decoded(118, 46, 255)) by (nonlinear_arith);
            46
        },
        119 => {
            assert(srgb_decoded(119, 47, 255)) by (nonlinear_arith);
            47
        },
        120 => {
            assert(srgb_decoded(120, 48, 255)) by (nonlinear_arith);
            48
        },
        121 => {
            assert(srgb_decoded(121, 49, 255)) by (nonlinear_arith);
            49
        },
        122 => {
            assert(srgb_decoded(122, 50, 255)) by (nonlinear_arith);
            50
        },
        123 => {
            assert(srgb_decoded(123, 51, 255)) by (nonlinear_arith);
            51
        },
        124 => {
            assert(srgb_decoded(124, 51, 255)) by (nonlinear_arith);
            51
        },
        125 => {
            assert(srgb_decoded(125, 52, 255)) by (nonlinear_arith);
            52
        },
        126 => {
            assert(srgb_decoded(126, 53, 255)) by (nonlinear_arith);
            53
        },
        127 => {
            assert(srgb_decoded(127, 54, 255)) by (nonlinear_arith);
            54
        },
        128 => {
            assert(srgb_decoded(128, 55, 255)) by (nonlinear_arith);
            55
        },
        129 => {
            assert(srgb_decoded(129, 56, 255)) by (nonlinear_arith);
            56
        },
        130 => {
            assert(srgb_decoded(130, 57, 255)) by (nonlinear_arith);
            57
        },
        131 => {
            assert(srgb_decoded(131, 58, 255)) by (nonlinear_arith);
            58
        },
        132 => {
            assert(srgb_decoded(132, 59, 255)) by (nonlinear_arith);
            59
        },
        133 => {
            assert(srgb_decoded(133, 60, 255)) by (nonlinear_arith);
            60
        },
        134 => {
            assert(srgb_decoded(134, 61, 255)) by (nonlinear_arith);
            61
        },
        135 => {
            assert(srgb_decoded(135, 62, 255)) by (nonlinear_arith);
            62
        },
        136 => {
            assert(srgb_decoded(136, 63, 255)) by (nonlinear_arith);
            63
        },
        137 => {
            assert(srgb_decoded(137, 64, 255)) by (nonlinear_arith);
            64
        },
        138 => {
            assert(srgb_decoded(138, 65, 255)) by (nonlinear_arith);
            65
        },
        139 => {
            assert(srgb_decoded(139, 66, 255)) by (nonlinear_arith);
            66
        },
        140 => {
            assert(srgb_decoded(140, 67, 255)) by (nonlinear_arith);
            67
        },
        141 => {
            assert(srgb_decoded(141, 68, 255)) by (nonlinear_arith);
            68
        },
        142 => {
            assert(srgb_decoded(142, 69, 255)) by (nonlinear_arith);
            69
        },
        143 => {
            assert(srgb_decoded(143, 70, 255)) by (nonlinear_arith);
            70
        },
        144 => {
            assert(srgb_decoded(144, 71, 255)) by (nonlinear_arith);
            71
        },
        145 => {
            assert(srgb_decoded(145, 72, 255)) by (nonlinear_arith);
            72
        },
        146 => {
            assert(srgb_decoded(146, 73, 255)) by (nonlinear_arith);
            73
        },
        147 => {
            assert(srgb_decoded(147, 74, 255)) by (nonlinear_arith);
            74
        },
        148 => {
            assert(srgb_decoded(148, 76, 255)) by (nonlinear_arith);
            76
        },
        149 => {
            assert(srgb_decoded(149, 77, 255)) by (nonlinear_arith);
            77
        },
        150 => {
            assert(srgb_decoded(150, 78, 255)) by (nonlinear_arith);
            78
        },
        151 => {
            assert(srgb_decoded(151, 79, 255)) by (nonlinear_arith);
            79
        },
        152 => {
            assert(srgb_decoded(152, 80, 255)) by (nonlinear_arith);
            80
        },
        153 => {
            assert(srgb_decoded(153, 81, 255)) by (nonlinear_arith);
            81
        },
        154 => {
            assert(srgb_decoded(154, 82, 255)) by (nonlinear_arith);
            82
        },
        155 => {
            assert(srgb_decoded(155, 84, 255)) by (nonlinear_arith);
            84
        },
        156 => {
            assert(srgb_decoded(156, 85, 255)) by (nonlinear_arith);
            85
        },
        157 => {
            assert(srgb_decoded(157, 86, 255)) by (nonlinear_arith);
            86
        },
        158 => {
            assert(srgb_decoded(158, 87, 255)) by (nonlinear_arith);
            87
        },
        159 => {
            assert(srgb_decoded(159, 88, 255)) by (nonlinear_arith);
            88
        },
        160 => {
            assert(srgb_decoded(160, 90, 255)) by (nonlinear_arith);
            90
        },
        161 => {
            assert(srgb_decoded(161, 91, 255)) by (nonlinear_arith);
            91
        },
        162 => {
            assert(srgb_decoded(162, 92, 255)) by (nonlinear_arith);
            92
        },
        163 => {
            assert(srgb_decoded(163, 93, 255)) by (nonlinear_arith);
            93
        },
        164 => {
            assert(srgb_decoded(164, 95, 255)) by (nonlinear_arith);
            95
        },
        165 => {
            assert(srgb_decoded(165, 96, 255)) by (nonlinear_arith);
            96
        },
        166 => {
            assert(srgb_decoded(166, 97, 255)) by (nonlinear_arith);
            97
        },
        167 => {
            assert(srgb_decoded(167, 99, 255)) by (nonlinear_arith);
            99
        },
        168 => {
            assert(srgb_decoded(168, 100, 255)) by (nonlinear_arith);
            100
        },
        169 => {
            assert(srgb_decoded(169, 101, 255)) by (nonlinear_arith);
            101
        },
        170 => {
            assert(srgb_decoded(170, 103, 255)) by (nonlinear_arith);
            103
        },
        171 => {
            assert(srgb_decoded(171, 104, 255)) by (nonlinear_arith);
            104
        },
        172 => {
            assert(srgb_decoded(172, 105, 255)) by (nonlinear_arith);
            105
        },
        173 => {
            assert(srgb_decoded(173, 107, 255)) by (nonlinear_arith);
            107
        },
        174 => {
            assert(srgb_decoded(174, 108, 255)) by (nonlinear_arith);
            108
        },
        175 => {
            assert(srgb_decoded(175, 109, 255)) by (nonlinear_arith);
            109
        },
        176 => {
            assert(srgb_decoded(176, 111, 255)) by (nonlinear_arith);
            111
        },
        177 => {
            assert(srgb_decoded(177, 112, 255)) by (nonlinear_arith);
            112
        },
        178 => {
            assert(srgb_decoded(178, 114, 255)) by (nonlinear_arith);
            114
        },
        179 => {
            assert(srgb_decoded(179, 115, 255)) by (nonlinear_arith);
            115
        },
        180 => {
            assert(srgb_decoded(180, 116, 255)) by (nonlinear_arith);
            116
        },
        181 => {
            assert(srgb_decoded(181, 118, 255)) by (nonlinear_arith);
            118
        },
        182 => {
            assert(srgb_decoded(182, 119, 255)) by (nonlinear_arith);
            119
        },
        183 => {
            assert(srgb_decoded(183, 121, 255)) by (nonlinear_arith);
            121
        },
        184 => {
            assert(srgb_decoded(184, 122, 255)) by (nonlinear_arith);
            122
        },
        185 => {
            assert(srgb_decoded(185, 124, 255)) by (nonlinear_arith);
            124
        },
        186 => {
            assert(srgb_decoded(186, 125, 255)) by (nonlinear_arith);
            125
        },
        187 => {
            assert(srgb_decoded(187, 127, 255)) by (nonlinear_arith);
            127
        },
        188 => {
            assert(srgb_decoded(188, 128, 255)) by (nonlinear_arith);
            128
        },
        189 => {
            assert(srgb_decoded(189, 130, 255)) by (nonlinear_arith);
            130
        },
        190 => {
            assert(srgb_decoded(190, 131, 255)) by (nonlinear_arith);
            131
        },
        191 => {
            assert(srgb_decoded(191, 133, 255)) by (nonlinear_arith);
            133
        },
        192 => {
            assert(srgb_decoded(192, 134, 255)) by (nonlinear_arith);
            134
        },
        193 => {
            assert(srgb_decoded(193, 136, 255)) by (nonlinear_arith);
            136
        },
        194 => {
            assert(srgb_decoded(194, 138, 255)) by (nonlinear_arith);
            138
        },
        195 => {
            assert(srgb_decoded(195, 139, 255)) by (nonlinear_arith);
            139
        },
        196 => {
            assert(srgb_decoded(196, 141, 255)) by (nonlinear_arith);
            141
        },
        197 => {
            assert(srgb_decoded(197, 142, 255)) by (nonlinear_arith);
            142
        },
        198 => {
            assert(srgb_decoded(198, 144, 255)) by (nonlinear_arith);
            144
        },
        199 => {
            assert(srgb_decoded(199, 146, 255)) by (nonlinear_arith);
            146
        },
        200 => {
            assert(srgb_decoded(200, 147, 255)) by (nonlinear_arith);
            147
        },
        201 => {
            assert(srgb_decoded(201, 149, 255)) by (nonlinear_arith);
            149
        },
        202 => {
            assert(srgb_decoded(202, 151, 255)) by (nonlinear_arith);
            151
        },
        203 => {
            assert(srgb_decoded(203, 152, 255)) by (nonlinear_arith);
            152
        },
        204 => {
            assert(srgb_decoded(204, 154, 255)) by (nonlinear_arith);
            154
        },
        205 => {
            assert(srgb_decoded(205, 156, 255)) by (nonlinear_arith);
            156
        },
        206 => {
            assert(srgb_decoded(206, 157, 255)) by (nonlinear_arith);
            157
        },
        207 => {
            assert(srgb_decoded(207, 159, 255)) by (nonlinear_arith);
            159
        },
        208 => {
            assert(srgb_decoded(208, 161, 255)) by (nonlinear_arith);
            161
        },
        209 => {
            assert(srgb_decoded(209, 163, 255)) by (nonlinear_arith);
            163
        },
        210 => {
            assert(srgb_decoded(210, 164, 255)) by (nonlinear_arith);
            164
        },
        211 => {
            assert(srgb_decoded(211, 166, 255)) by (nonlinear_arith);
            166
        },
        212 => {
            assert(srgb_decoded(212, 168, 255)) by (nonlinear_arith);
            168
        },
        213 => {
            assert(srgb_decoded(213, 170, 255)) by (nonlinear_arith);
            170
        },
        214 => {
            assert(srgb_decoded(214, 171, 255)) by (nonlinear_arith);
            171
        },
        215 => {
            assert(srgb_decoded(215, 173, 255)) by (nonlinear_arith);
            173
        },
        216 => {
            assert(srgb_decoded(216, 175, 255)) by (nonlinear_arith);
            175
        },
        217 => {
            assert(srgb_decoded(217, 177, 255)) by (nonlinear_arith);
            177
        },
        218 => {
            assert(srgb_decoded(218, 179, 255)) by (nonlinear_arith);
            179
        },
        219 => {
            assert(srgb_decoded(219, 181, 255)) by (nonlinear_arith);
            181
        },
        220 => {
            assert(srgb_decoded(220, 183, 255)) by (nonlinear_arith);
            183
        },
        221 => {
            assert(srgb_decoded(221, 184, 255)) by (nonlinear_arith);
            184
        },
        222 => {
            assert(srgb_decoded(222, 186, 255)) by (nonlinear_arith);
            186
        },
        223 => {
            assert(srgb_decoded(223, 188, 255)) by (nonlinear_arith);
            188
        },
        224 => {
            assert(srgb_decoded(224, 190, 255)) by (nonlinear_arith);
            190
        },
        225 => {
            assert(srgb_decoded(225, 192, 255)) by (nonlinear_arith);
            192
        },
        226 => {
            assert(srgb_decoded(226, 194, 255)) by (nonlinear_arith);
            194
        },
        227 => {
            assert(srgb_decoded(227, 196, 255)) by (nonlinear_arith);
            196
        },
        228 => {
            assert(srgb_decoded(228, 198, 255)) by (nonlinear_arith);
            198
        },
        229 => {
            assert(srgb_decoded(229, 200, 255)) by (nonlinear_arith);
            200
        },
        230 => {
            assert(srgb_decoded(230, 202, 255)) by (nonlinear_arith);
            202
        },
        231 => {
            assert(srgb_decoded(231, 204, 255)) by (nonlinear_arith);
            204
        },
        232 => {
            assert(srgb_decoded(232, 206, 255)) by (nonlinear_arith);
            206
        },
        233 => {
            assert(srgb_decoded(233, 208, 255)) by (nonlinear_arith);
            208
        },
        234 => {
            assert(srgb_decoded(234, 210, 255)) by (nonlinear_arith);
            210
        },
        235 => {
            assert(srgb_decoded(235, 212, 255)) by (nonlinear_arith);
            212
        },
        236 => {
            assert(srgb_decoded(236, 214, 255)) by (nonlinear_arith);
            214
        },
        237 => {
            assert(srgb_decoded(237, 216, 255)) by (nonlinear_arith);
            216
        },
        238 => {
            assert(srgb_decoded(238, 218, 255)) by (nonlinear_arith);
            218
        },
        239 => {
            assert(srgb_decoded(239, 220, 255)) by (nonlinear_arith);
            220
        },
        240 => {
            assert(srgb_decoded(240, 222, 255)) by (nonlinear_arith);
            222
        },
        241 => {
            assert(srgb_decoded(241, 224, 255)) by (nonlinear_arith);
            224
        },
        242 => {
            assert(srgb_decoded(242, 226, 255)) by (nonlinear_arith);
            226
        },
        243 => {
            assert(srgb_decoded(243, 229, 255)) by (nonlinear_arith);
            229
        },
        244 => {
            assert(srgb_decoded(244, 231, 255)) by (nonlinear_arith);
            231
        },
        245 => {
            assert(srgb_decoded(245, 233, 255)) by (nonlinear_arith);
            233
        },
        246 => {
            assert(srgb_decoded(246, 235, 255)) by (nonlinear_arith);
            235
        },
        247 => {
            assert(srgb_decoded(247, 237, 255)) by (nonlinear_arith);
            237
        },
        248 => {
            assert(srgb_decoded(248, 239, 255)) by (nonlinear_arith);
            239
        },
        249 => {
            assert(srgb_decoded(249, 242, 255)) by (nonlinear_arith);
            242
        },
        250 => {
            assert(srgb_decoded(250, 244, 255)) by (nonlinear_arith);
            244
        },
        251 => {
            assert(srgb_decoded(251, 246, 255)) by (nonlinear_arith);
            246
        },
        252 => {
            assert(srgb_decoded(252, 248, 255)) by (nonlinear_arith);
            248
        },
        253 => {
            assert(srgb_decoded(253, 250, 255)) by (nonlinear_arith);
            250
        },
        254 => {
            assert(srgb_decoded(254, 253, 255)) by (nonlinear_arith);
            253
        },
        _ => {
            assert(srgb_decoded(255, 255, 255)) by (nonlinear_arith);
            255
        },
    }
}

/// Look up `encode16_knots`.
pub(crate) fn encode16_knot_lookup(k: u8) -> (r: u16)
    ensures
        r == encode16_knots(k as int),
        srgb_encoded(k as int * 257, r as int, 65535),
{
    match k {
        0 => {
            assert(srgb_encoded(0, 0, 65535)) by (nonlinear_arith);
            0
        },
        1 => {
            assert(srgb_encoded(257, 3266, 65535)) by (nonlinear_arith);
            3266
        },
        2 => {
            assert(srgb_encoded(514, 5567, 65535)) by (nonlinear_arith);
            5567
        },
        3 => {
            assert(srgb_encoded(771, 7255, 65535)) by (nonlinear_arith);
            7255
        },
        4 => {
            assert(srgb_encoded(1028, 8638, 65535)) by (nonlinear_arith);
            8638
        },
        5 => {
            assert(srgb_encoded(1285, 9831, 65535)) by (nonlinear_arith);
            9831
        },
        6 => {
            assert(srgb_encoded(1542, 10891, 65535)) by (nonlinear_arith);
            10891
        },
        7 => {
            assert(srgb_encoded(1799, 11853, 65535)) by (nonlinear_arith);
            11853
        },
        8 => {
            assert(srgb_encoded(2056, 12737, 65535)) by (nonlinear_arith);
            12737
        },
        9 => {
            assert(srgb_encoded(2313, 13559, 65535)) by (nonlinear_arith);
            13559
        },
        10 => {
            assert(srgb_encoded(2570, 14329, 65535)) by (nonlinear_arith);
            14329
        },
        11 => {
            assert(srgb_encoded(2827, 15056, 65535)) by (nonlinear_arith);
            15056
        },
        12 => {
            assert(srgb_encoded(3084, 15745, 65535)) by (nonlinear_arith);
            15745
        },
        13 => {
            assert(srgb_encoded(3341, 16401, 65535)) by (nonlinear_arith);
            16401
        },
        14 => {
            assert(srgb_encoded(3598, 17028, 65535)) by (nonlinear_arith);
            17028
        },
        15 => {
            assert(srgb_encoded(3855, 17630, 65535)) by (nonlinear_arith);
            17630
        },
        16 => {
            assert(srgb_encoded(4112, 18209, 65535)) by (nonlinear_arith);
            18209
        },
        17 => {
            assert(srgb_encoded(4369, 18767, 65535)) by (nonlinear_arith);
            18767
        },
        18 => {
            assert(srgb_encoded(4626, 19306, 65535)) by (nonlinear_arith);
            19306
        },
        19 => {
            assert(srgb_encoded(4883, 19828, 65535)) by (nonlinear_arith);
            19828
        },
        20 => {
            assert(srgb_encoded(5140, 20334, 65535)) by (nonlinear_arith);
            20334
        },
        21 => {
            assert(srgb_encoded(5397, 20826, 65535)) by (nonlinear_arith);
            20826
        },
        22 => {
            assert(srgb_encoded(5654, 21304, 65535)) by (nonlinear_arith);
            21304
        },
        23 => {
            assert(srgb_encoded(5911, 21769, 65535)) by (nonlinear_arith);
            21769
        },
        24 => {
            assert(srgb_encoded(6168, 22223, 65535)) by (nonlinear_arith);
            22223
        },
        25 => {
            assert(srgb_encoded(6425, 22667, 65535)) by (nonlinear_arith);
            22667
        },
        26 => {
            assert(srgb_encoded(6682, 23099, 65535)) by (nonlinear_arith);
            23099
        },
        27 => {
            assert(srgb_encoded(6939, 23523, 65535)) by (nonlinear_arith);
            23523
        },
        28 => {
            assert(srgb_encoded(7196, 23937, 65535)) by (nonlinear_arith);
            23937
        },
        29 => {
            assert(srgb_encoded(7453, 24342, 65535)) by (nonlinear_arith);
            24342
        },
        30 => {
            assert(srgb_encoded(7710, 24740, 65535)) by (nonlinear_arith);
            24740
        },
        31 => {
            assert(srgb_encoded(7967, 25130, 65535)) by (nonlinear_arith);
            25130
        },
        32 => {
            assert(srgb_encoded(8224, 25513, 65535)) by (nonlinear_arith);
            25513
        },
        33 => {
            assert(srgb_encoded(8481, 25888, 65535)) by (nonlinear_arith);
            25888
        },
        34 => {
            assert(srgb_encoded(8738, 26257, 65535)) by (nonlinear_arith);
            26257
        },
        35 => {
            assert(srgb_encoded(8995, 26620, 65535)) by (nonlinear_arith);
            26620
        },
        36 => {
            assert(srgb_encoded(9252, 26977, 65535)) by (nonlinear_arith);
            26977
        },
        37 => {
            assert(srgb_encoded(9509, 27328, 65535)) by (nonlinear_arith);
            27328
        },
        38 => {
            assert(srgb_encoded(9766, 27674, 65535)) by (nonlinear_arith);
            27674
        },
        39 => {
            assert(srgb_encoded(10023, 28014, 65535)) by (nonlinear_arith);
            28014
        },
        40 => {
            assert(srgb_encoded(10280, 28350, 65535)) by (nonlinear_arith);
            28350
        },
        41 => {
            assert(srgb_encoded(10537, 28680, 65535)) by (nonlinear_arith);
            28680
        },
        42 => {
            assert(srgb_encoded(10794, 29006, 65535)) by (nonlinear_arith);
            29006
        },
        43 => {
            assert(srgb_encoded(11051, 29327, 65535)) by (nonlinear_arith);
            29327
        },
        44 => {
            assert(srgb_encoded(11308, 29644, 65535)) by (nonlinear_arith);
            29644
        },
        45 => {
            assert(srgb_encoded(11565, 29957, 65535)) by (nonlinear_arith);
            29957
        },
        46 => {
            assert(srgb_encoded(11822, 30266, 65535)) by (nonlinear_arith);
            30266
        },
        47 => {
            assert(srgb_encoded(12079, 30571, 65535)) by (nonlinear_arith);
            30571
        },
        48 => {
            assert(srgb_encoded(12336, 30872, 65535)) by (nonlinear_arith);
            30872
        },
        49 => {
            assert(srgb_encoded(12593, 31169, 65535)) by (nonlinear_arith);
            31169
        },
        50 => {
            assert(srgb_encoded(12850, 31463, 65535)) by (nonlinear_arith);
            31463
        },
        51 => {
            assert(srgb_encoded(13107, 31754, 65535)) by (nonlinear_arith);
            31754
        },
        52 => {
            assert(srgb_encoded(13364, 32041, 65535)) by (nonlinear_arith);
            32041
        },
        53 => {
            assert(srgb_encoded(13621, 32325, 65535)) by (nonlinear_arith);
            32325
        },
        54 => {
            assert(srgb_encoded(13878, 32606, 65535)) by (nonlinear_arith);
            32606
        },
        55 => {
            assert(srgb_encoded(14135, 32884, 65535)) by (nonlinear_arith);
            32884
        },
        56 => {
            assert(srgb_encoded(14392, 33159, 65535)) by (nonlinear_arith);
            33159
        },
        57 => {
            assert(srgb_encoded(14649, 33431, 65535)) by (nonlinear_arith);
            33431
        },
        58 => {
            assert(srgb_encoded(14906, 33700, 65535)) by (nonlinear_arith);
            33700
        },
        59 => {
            assert(srgb_encoded(15163, 33967, 65535)) by (nonlinear_arith);
            33967
        },
        60 => {
            assert(srgb_encoded(15420, 34231, 65535)) by (nonlinear_arith);
            34231
        },
        61 => {
            assert(srgb_encoded(15677, 34492, 65535)) by (nonlinear_arith);
            34492
        },
        62 => {
            assert(srgb_encoded(15934, 34751, 65535)) by (nonlinear_arith);
            34751
        },
        63 => {
            assert(srgb_encoded(16191, 35008, 65535)) by (nonlinear_arith);
            35008
        },
        64 => {
            assert(srgb_encoded(16448, 35262, 65535)) by (nonlinear_arith);
            35262
        },
        65 => {
            assert(srgb_encoded(16705, 35514, 65535)) by (nonlinear_arith);
            35514
        },
        66 => {
            assert(srgb_encoded(16962, 35764, 65535)) by (nonlinear_arith);
            35764
        },
        67 => {
            assert(srgb_encoded(17219, 36011, 65535)) by (nonlinear_arith);
            36011
        },
        68 => {
            assert(srgb_encoded(17476, 36256, 65535)) by (nonlinear_arith);
            36256
        },
        69 => {
            assert(srgb_encoded(17733, 36500, 65535)) by (nonlinear_arith);
            36500
        },
        70 => {
            assert(srgb_encoded(17990, 36741, 65535)) by (nonlinear_arith);
            36741
        },
        71 => {
            assert(srgb_encoded(18247, 36980, 65535)) by (nonlinear_arith);
            36980
        },
        72 => {
            assert(srgb_encoded(18504, 37217, 65535)) by (nonlinear_arith);
            37217
        },
        73 => {
            assert(srgb_encoded(18761, 37452, 65535)) by (nonlinear_arith);
            37452
        },
        74 => {
            assert(srgb_encoded(19018, 37686, 65535)) by (nonlinear_arith);
            37686
        },
        75 => {
            assert(srgb_encoded(19275, 37917, 65535)) by (nonlinear_arith);
            37917
        },
        76 => {
            assert(srgb_encoded(19532, 38147, 65535)) by (nonlinear_arith);
            38147
        },
        77 => {
            assert(srgb_encoded(19789, 38375, 65535)) by (nonlinear_arith);
            38375
        },
        78 => {
            assert(srgb_encoded(20046, 38602, 65535)) by (nonlinear_arith);
            38602
        },
        79 => {
            assert(srgb_encoded(20303, 38826, 65535)) by (nonlinear_arith);
            38826
        },
        80 => {
            assert(srgb_encoded(20560, 39049, 65535)) by (nonlinear_arith);
            39049
        },
        81 => {
            assert(srgb_encoded(20817, 39270, 65535)) by (nonlinear_arith);
            39270
        },
        82 => {
            assert(srgb_encoded(21074, 39490, 65535)) by (nonlinear_arith);
            39490
        },
        83 => {
            assert(srgb_encoded(21331, 39708, 65535)) by (nonlinear_arith);
            39708
        },
        84 => {
            assert(srgb_encoded(21588, 39925, 65535)) by (nonlinear_arith);
            39925
        },
        85 => {
            assert(srgb_encoded(21845, 40140, 65535)) by (nonlinear_arith);
            40140
        },
        86 => {
            assert(srgb_encoded(22102, 40354, 65535)) by (nonlinear_arith);
            40354
        },
        87 => {
            assert(srgb_encoded(22359, 40566, 65535)) by (nonlinear_arith);
            40566
        },
        88 => {
            assert(srgb_encoded(22616, 40777, 65535)) by (nonlinear_arith);
            40777
        },
        89 => {
            assert(srgb_encoded(22873, 40987, 65535)) by (nonlinear_arith);
            40987
        },
        90 => {
            assert(srgb_encoded(23130, 41195, 65535)) by (nonlinear_arith);
            41195
        },
        91 => {
            assert(srgb_encoded(23387, 41401, 65535)) by (nonlinear_arith);
            41401
        },
        92 => {
            assert(srgb_encoded(23644, 41607, 65535)) by (nonlinear_arith);
            41607
        },
        93 => {
            assert(srgb_encoded(23901, 41811, 65535)) by (nonlinear_arith);
            41811
        },
        94 => {
            assert(srgb_encoded(24158, 42014, 65535)) by (nonlinear_arith);
            42014
        },
        95 => {
            assert(srgb_encoded(24415, 42215, 65535)) by (nonlinear_arith);
            42215
        },
        96 => {
            assert(srgb_encoded(24672, 42416, 65535)) by (nonlinear_arith);
            42416
        },
        97 => {
            assert(srgb_encoded(24929, 42615, 65535)) by (nonlinear_arith);
            42615
        },
        98 => {
            assert(srgb_encoded(25186, 42813, 65535)) by (nonlinear_arith);
            42813
        },
        99 => {
            assert(srgb_encoded(25443, 43009, 65535)) by (nonlinear_arith);
            43009
        },
        100 => {
            assert(srgb_encoded(25700, 43205, 65535)) by (nonlinear_arith);
            43205
        },
        101 => {
            assert(srgb_encoded(25957, 43400, 65535)) by (nonlinear_arith);
            43400
        },
        102 => {
            assert(srgb_encoded(26214, 43593, 65535)) by (nonlinear_arith);
            43593
        },
        103 => {
            assert(srgb_encoded(26471, 43785, 65535)) by (nonlinear_arith);
            43785
        },
        104 => {
            assert(srgb_encoded(26728, 43976, 65535)) by (nonlinear_arith);
            43976
        },
        105 => {
            assert(srgb_encoded(26985, 44166, 65535)) by (nonlinear_arith);
            44166
        },
        106 => {
            assert(srgb_encoded(27242, 44355, 65535)) by (nonlinear_arith);
            44355
        },
        107 => {
            assert(srgb_encoded(27499, 44543, 65535)) by (nonlinear_arith);
            44543
        },
        108 => {
            assert(srgb_encoded(27756, 44730, 65535)) by (nonlinear_arith);
            44730
        },
        109 => {
            assert(srgb_encoded(28013, 44916, 65535)) by (nonlinear_arith);
            44916
        },
        110 => {
            assert(srgb_encoded(28270, 45101, 65535)) by (nonlinear_arith);
            45101
        },
        111 => {
            assert(srgb_encoded(28527, 45285, 65535)) by (nonlinear_arith);
            45285
        },
        112 => {
            assert(srgb_encoded(28784, 45468, 65535)) by (nonlinear_arith);
            45468
        },
        113 => {
            assert(srgb_encoded(29041, 45651, 65535)) by (nonlinear_arith);
            45651
        },
        114 => {
            assert(srgb_encoded(29298, 45832, 65535)) by (nonlinear_arith);
            45832
        },
        115 => {
            assert(srgb_encoded(29555, 46012, 65535)) by (nonlinear_arith);
            46012
        },
        116 => {
            assert(srgb_encoded(29812, 46191, 65535)) by (nonlinear_arith);
            46191
        },
        117 => {
            assert(srgb_encoded(30069, 46370, 65535)) by (nonlinear_arith);
            46370
        },
        118 => {
            assert(srgb_encoded(30326, 46547, 65535)) by (nonlinear_arith);
            46547
        },
        119 => {
            assert(srgb_encoded(30583, 46724, 65535)) by (nonlinear_arith);
            46724
        },
        120 => {
            assert(srgb_encoded(30840, 46900, 65535)) by (nonlinear_arith);
            46900
        },
        121 => {
            assert(srgb_encoded(31097, 47075, 65535)) by (nonlinear_arith);
            47075
        },
        122 => {
            assert(srgb_encoded(31354, 47249, 65535)) by (nonlinear_arith);
            47249
        },
        123 => {
            assert(srgb_encoded(31611, 47422, 65535)) by (nonlinear_arith);
            47422
        },
        124 => {
            assert(srgb_encoded(31868, 47594, 65535)) by (nonlinear_arith);
            47594
        },
        125 => {
            assert(srgb_encoded(32125, 47766, 65535)) by (nonlinear_arith);
            47766
        },
        126 => {
            assert(srgb_encoded(32382, 47937, 65535)) by (nonlinear_arith);
            47937
        },
        127 => {
            assert(srgb_encoded(32639, 48107, 65535)) by (nonlinear_arith);
            48107
        },
        128 => {
            assert(srgb_encoded(32896, 48276, 65535)) by (nonlinear_arith);
            48276
        },
        129 => {
            assert(srgb_encoded(33153, 48445, 65535)) by (nonlinear_arith);
            48445
        },
        130 => {
            assert(srgb_encoded(33410, 48612, 65535)) by (nonlinear_arith);
            48612
        },
        131 => {
            assert(srgb_encoded(33667, 48779, 65535)) by (nonlinear_arith);
            48779
        },
        132 => {
            assert(srgb_encoded(33924, 48946, 65535)) by (nonlinear_arith);
            48946
        },
        133 => {
            assert(srgb_encoded(34181, 49111, 65535)) by (nonlinear_arith);
            49111
        },
        134 => {
            assert(srgb_encoded(34438, 49276, 65535)) by (nonlinear_arith);
            49276
        },
        135 => {
            assert(srgb_encoded(34695, 49440, 65535)) by (nonlinear_arith);
            49440
        },
        136 => {
            assert(srgb_encoded(34952, 49603, 65535)) by (nonlinear_arith);
            49603
        },
        137 => {
            assert(srgb_encoded(35209, 49766, 65535)) by (nonlinear_arith);
            49766
        },
        138 => {
            assert(srgb_encoded(35466, 49928, 65535)) by (nonlinear_arith);
            49928
        },
        139 => {
            assert(srgb_encoded(35723, 50089, 65535)) by (nonlinear_arith);
            50089
        },
        140 => {
            assert(srgb_encoded(35980, 50250, 65535)) by (nonlinear_arith);
            50250
        },
        141 => {
            assert(srgb_encoded(36237, 50410, 65535)) by (nonlinear_arith);
            50410
        },
        142 => {
            assert(srgb_encoded(36494, 50569, 65535)) by (nonlinear_arith);
            50569
        },
        143 => {
            assert(srgb_encoded(36751, 50728, 65535)) by (nonlinear_arith);
            50728
        },
        144 => {
            assert(srgb_encoded(37008, 50886, 65535)) by (nonlinear_arith);
            50886
        },
        145 => {
            assert(srgb_encoded(37265, 51043, 65535)) by (nonlinear_arith);
            51043
        },
        146 => {
            assert(srgb_encoded(37522, 51200, 65535)) by (nonlinear_arith);
            51200
        },
        147 => {
            assert(srgb_encoded(37779, 51356, 65535)) by (nonlinear_arith);
            51356
        },
        148 => {
            assert(srgb_encoded(38036, 51511, 65535)) by (nonlinear_arith);
            51511
        },
        149 => {
            assert(srgb_encoded(38293, 51666, 65535)) by (nonlinear_arith);
            51666
        },
        150 => {
            assert(srgb_encoded(38550, 51821, 65535)) by (nonlinear_arith);
            51821
        },
        151 => {
            assert(srgb_encoded(38807, 51974, 65535)) by (nonlinear_arith);
            51974
        },
        152 => {
            assert(srgb_encoded(39064, 52127, 65535)) by (nonlinear_arith);
            52127
        },
        153 => {
            assert(srgb_encoded(39321, 52280, 65535)) by (nonlinear_arith);
            52280
        },
        154 => {
            assert(srgb_encoded(39578, 52432, 65535)) by (nonlinear_arith);
            52432
        },
        155 => {
            assert(srgb_encoded(39835, 52583, 65535)) by (nonlinear_arith);
            52583
        },
        156 => {
            assert(srgb_encoded(40092, 52734, 65535)) by (nonlinear_arith);
            52734
        },
        157 => {
            assert(srgb_encoded(40349, 52884, 65535)) by (nonlinear_arith);
            52884
        },
        158 => {
            assert(srgb_encoded(40606, 53034, 65535)) by (nonlinear_arith);
            53034
        },
        159 => {
            assert(srgb_encoded(40863, 53183, 65535)) by (nonlinear_arith);
            53183
        },
        160 => {
            assert(srgb_encoded(41120, 53331, 65535)) by (nonlinear_arith);
            53331
        },
        161 => {
            assert(srgb_encoded(41377, 53479, 65535)) by (nonlinear_arith);
            53479
        },
        162 => {
            assert(srgb_encoded(41634, 53627, 65535)) by (nonlinear_arith);
            53627
        },
        163 => {
            assert(srgb_encoded(41891, 53774, 65535)) by (nonlinear_arith);
            53774
        },
        164 => {
            assert(srgb_encoded(42148, 53920, 65535)) by (nonlinear_arith);
            53920
        },
        165 => {
            assert(srgb_encoded(42405, 54066, 65535)) by (nonlinear_arith);
            54066
        },
        166 => {
            assert(srgb_encoded(42662, 54211, 65535)) by (nonlinear_arith);
            54211
        },
        167 => {
            assert(srgb_encoded(42919, 54356, 65535)) by (nonlinear_arith);
            54356
        },
        168 => {
            assert(srgb_encoded(43176, 54500, 65535)) by (nonlinear_arith);
            54500
        },
        169 => {
            assert(srgb_encoded(43433, 54644, 65535)) by (nonlinear_arith);
            54644
        },
        170 => {
            assert(srgb_encoded(43690, 54788, 65535)) by (nonlinear_arith);
            54788
        },
        171 => {
            assert(srgb_encoded(43947, 54931, 65535)) by (nonlinear_arith);
            54931
        },
        172 => {
            assert(srgb_encoded(44204, 55073, 65535)) by (nonlinear_arith);
            55073
        },
        173 => {
            assert(srgb_encoded(44461, 55215, 65535)) by (nonlinear_arith);
            55215
        },
        174 => {
            assert(srgb_encoded(44718, 55356, 65535)) by (nonlinear_arith);
            55356
        },
        175 => {
            assert(srgb_encoded(44975, 55497, 65535)) by (nonlinear_arith);
            55497
        },
        176 => {
            assert(srgb_encoded(45232, 55638, 65535)) by (nonlinear_arith);
            55638
        },
        177 => {
            assert(srgb_encoded(45489, 55778, 65535)) by (nonlinear_arith);
            55778
        },
        178 => {
            assert(srgb_encoded(45746, 55917, 65535)) by (nonlinear_arith);
            55917
        },
        179 => {
            assert(srgb_encoded(46003, 56056, 65535)) by (nonlinear_arith);
            56056
        },
        180 => {
            assert(srgb_encoded(46260, 56195, 65535)) by (nonlinear_arith);
            56195
        },
        181 => {
            assert(srgb_encoded(46517, 56333, 65535)) by (nonlinear_arith);
            56333
        },
        182 => {
            assert(srgb_encoded(46774, 56471, 65535)) by (nonlinear_arith);
            56471
        },
        183 => {
            assert(srgb_encoded(47031, 56608, 65535)) by (nonlinear_arith);
            56608
        },
        184 => {
            assert(srgb_encoded(47288, 56745, 65535)) by (nonlinear_arith);
            56745
        },
        185 => {
            assert(srgb_encoded(47545, 56882, 65535)) by (nonlinear_arith);
            56882
        },
        186 => {
            assert(srgb_encoded(47802, 57018, 65535)) by (nonlinear_arith);
            57018
        },
        187 => {
            assert(srgb_encoded(48059, 57153, 65535)) by (nonlinear_arith);
            57153
        },
        188 => {
            assert(srgb_encoded(48316, 57288, 65535)) by (nonlinear_arith);
            57288
        },
        189 => {
            assert(srgb_encoded(48573, 57423, 65535)) by (nonlinear_arith);
            57423
        },
        190 => {
            assert(srgb_encoded(48830, 57558, 65535)) by (nonlinear_arith);
            57558
        },
        191 => {
            assert(srgb_encoded(49087, 57691, 65535)) by (nonlinear_arith);
            57691
        },
        192 => {
            assert(srgb_encoded(49344, 57825, 65535)) by (nonlinear_arith);
            57825
        },
        193 => {
            assert(srgb_encoded(49601, 57958, 65535)) by (nonlinear_arith);
            57958
        },
        194 => {
            assert(srgb_encoded(49858, 58091, 65535)) by (nonlinear_arith);
            58091
        },
        195 => {
            assert(srgb_encoded(50115, 58223, 65535)) by (nonlinear_arith);
            58223
        },
        196 => {
            assert(srgb_encoded(50372, 58355, 65535)) by (nonlinear_arith);
            58355
        },
        197 => {
            assert(srgb_encoded(50629, 58487, 65535)) by (nonlinear_arith);
            58487
        },
        198 => {
            assert(srgb_encoded(50886, 58618, 65535)) by (nonlinear_arith);
            58618
        },
        199 => {
            assert(srgb_encoded(51143, 58748, 65535)) by (nonlinear_arith);
            58748
        },
        200 => {
            assert(srgb_encoded(51400, 58879, 65535)) by (nonlinear_arith);
            58879
        },
        201 => {
            assert(srgb_encoded(51657, 59009, 65535)) by (nonlinear_arith);
            59009
        },
        202 => {
            assert(srgb_encoded(51914, 59138, 65535)) by (nonlinear_arith);
            59138
        },
        203 => {
            assert(srgb_encoded(52171, 59268, 65535)) by (nonlinear_arith);
            59268
        },
        204 => {
            assert(srgb_encoded(52428, 59396, 65535)) by (nonlinear_arith);
            59396
        },
        205 => {
            assert(srgb_encoded(52685, 59525, 65535)) by (nonlinear_arith);
            59525
        },
        206 => {
            assert(srgb_encoded(52942, 59653, 65535)) by (nonlinear_arith);
            59653
        },
        207 => {
            assert(srgb_encoded(53199, 59781, 65535)) by (nonlinear_arith);
            59781
        },
        208 => {
            assert(srgb_encoded(53456, 59908, 65535)) by (nonlinear_arith);
            59908
        },
        209 => {
            assert(srgb_encoded(53713, 60035, 65535)) by (nonlinear_arith);
            60035
        },
        210 => {
            assert(srgb_encoded(53970, 60162, 65535)) by (nonlinear_arith);
            60162
        },
        211 => {
            assert(srgb_encoded(54227, 60288, 65535)) by (nonlinear_arith);
            60288
        },
        212 => {
            assert(srgb_encoded(54484, 60414, 65535)) by (nonlinear_arith);
            60414
        },
        213 => {
            assert(srgb_encoded(54741, 60540, 65535)) by (nonlinear_arith);
            60540
        },
        214 => {
            assert(srgb_encoded(54998, 60665, 65535)) by (nonlinear_arith);
            60665
        },
        215 => {
            assert(srgb_encoded(55255, 60790, 65535)) by (nonlinear_arith);
            60790
        },
        216 => {
            assert(srgb_encoded(55512, 60915, 65535)) by (nonlinear_arith);
            60915
        },
        217 => {
            assert(srgb_encoded(55769, 61039, 65535)) by (nonlinear_arith);
            61039
        },
        218 => {
            assert(srgb_encoded(56026, 61163, 65535)) by (nonlinear_arith);
            61163
        },
        219 => {
            assert(srgb_encoded(56283, 61287, 65535)) by (nonlinear_arith);
            61287
        },
        220 => {
            assert(srgb_encoded(56540, 61410, 65535)) by (nonlinear_arith);
            61410
        },
        221 => {
            assert(srgb_encoded(56797, 61533, 65535)) by (nonlinear_arith);
            61533
        },
        222 => {
            assert(srgb_encoded(57054, 61656, 65535)) by (nonlinear_arith);
            61656
        },
        223 => {
            assert(srgb_encoded(57311, 61778, 65535)) by (nonlinear_arith);
            61778
        },
        224 => {
            assert(srgb_encoded(57568, 61900, 65535)) by (nonlinear_arith);
            61900
        },
        225 => {
            assert(srgb_encoded(57825, 62022, 65535)) by (nonlinear_arith);
            62022
        },
        226 => {
            assert(srgb_encoded(58082, 62143, 65535)) by (nonlinear_arith);
            62143
        },
        227 => {
            assert(srgb_encoded(58339, 62264, 65535)) by (nonlinear_arith);
            62264
        },
        228 => {
            assert(srgb_encoded(58596, 62385, 65535)) by (nonlinear_arith);
            62385
        },
        229 => {
            assert(srgb_encoded(58853, 62505, 65535)) by (nonlinear_arith);
            62505
        },
        230 => {
            assert(srgb_encoded(59110, 62625, 65535)) by (nonlinear_arith);
            62625
        },
        231 => {
            assert(srgb_encoded(59367, 62745, 65535)) by (nonlinear_arith);
            62745
        },
        232 => {
            assert(srgb_encoded(59624, 62865, 65535)) by (nonlinear_arith);
            62865
        },
        233 => {
            assert(srgb_encoded(59881, 62984, 65535)) by (nonlinear_arith);
            62984
        },
        234 => {
            assert(srgb_encoded(60138, 63103, 65535)) by (nonlinear_arith);
            63103
        },
        235 => {
            assert(srgb_encoded(60395, 63222, 65535)) by (nonlinear_arith);
            63222
        },
        236 => {
            assert(srgb_encoded(60652, 63340, 65535)) by (nonlinear_arith);
            63340
        },
        237 => {
            assert(srgb_encoded(60909, 63458, 65535)) by (nonlinear_arith);
            63458
        },
        238 => {
            assert(srgb_encoded(61166, 63576, 65535)) by (nonlinear_arith);
            63576
        },
        239 => {
            assert(srgb_encoded(61423, 63693, 65535)) by (nonlinear_arith);
            63693
        },
        240 => {
            assert(srgb_encoded(61680, 63810, 65535)) by (nonlinear_arith);
            63810
        },
        241 => {
            assert(srgb_encoded(61937, 63927, 65535)) by (nonlinear_arith);
            63927
        },
        242 => {
            assert(srgb_encoded(62194, 64044, 65535)) by (nonlinear_arith);
            64044
        },
        243 => {
            assert(srgb_encoded(62451, 64160, 65535)) by (nonlinear_arith);
            64160
        },
        244 => {
            assert(srgb_encoded(62708, 64276, 65535)) by (nonlinear_arith);
            64276
        },
        245 => {
            assert(srgb_encoded(62965, 64392, 65535)) by (nonlinear_arith);
            64392
        },
        246 => {
            assert(srgb_encoded(63222, 64508, 65535)) by (nonlinear_arith);
            64508
        },
        247 => {
            assert(srgb_encoded(63479, 64623, 65535)) by (nonlinear_arith);
            64623
        },
        248 => {
            assert(srgb_encoded(63736, 64738, 65535)) by (nonlinear_arith);
            64738
        },
        249 => {
            assert(srgb_encoded(63993, 64852, 65535)) by (nonlinear_arith);
            64852
        },
        250 => {
            assert(srgb_encoded(64250, 64967, 65535)) by (nonlinear_arith);
            64967
        },
        251 => {
            assert(srgb_encoded(64507, 65081, 65535)) by (nonlinear_arith);
            65081
        },
        252 => {
            assert(srgb_encoded(64764, 65195, 65535)) by (nonlinear_arith);
            65195
        },
        253 => {
            assert(srgb_encoded(65021, 65309, 65535)) by (nonlinear_arith);
            65309
        },
        254 => {
            assert(srgb_encoded(65278, 65422, 65535)) by (nonlinear_arith);
            65422
        },
        _ => {
            assert(srgb_encoded(65535, 65535, 65535)) by (nonlinear_arith);
            65535
        },
    }
}

/// Look up `encode16_low_knots`.
pub(crate) fn encode16_low_lookup(k: u16) -> (r: u16)
    requires
        k <= 256,
    ensures
        r == encode16_low_knots(k as int),
        srgb_encoded(k as int * 16, r as int, 65535),
{
    match k {
        0 => {
            assert(srgb_encoded(0, 0, 65535)) by (nonlinear_arith);
            0
        },
        1 => {
            assert(srgb_encoded(16, 207, 65535)) by (nonlinear_arith);
            207
        },
        2 => {
            assert(srgb_encoded(32, 413, 65535)) by (nonlinear_arith);
            413
        },
        3 => {
            assert(srgb_encoded(48, 620, 65535)) by (nonlinear_arith);
            620
        },
        4 => {
            assert(srgb_encoded(64, 827, 65535)) by (nonlinear_arith);
            827
        },
        5 => {
            assert(srgb_encoded(80, 1034, 65535)) by (nonlinear_arith);
            1034
        },
        6 => {
            assert(srgb_encoded(96, 1240, 65535)) by (nonlinear_arith);
            1240
        },
        7 => {
            assert(srgb_encoded(112, 1447, 65535)) by (nonlinear_arith);
            1447
        },
        8 => {
            assert(srgb_encoded(128, 1654, 65535)) by (nonlinear_arith);
            1654
        },
        9 => {
            assert(srgb_encoded(144, 1860, 65535)) by (nonlinear_arith);
            1860
        },
        10 => {
            assert(srgb_encoded(160, 2067, 65535)) by (nonlinear_arith);
            2067
        },
        11 => {
            assert(srgb_encoded(176, 2274, 65535)) by (nonlinear_arith);
            2274
        },
        12 => {
            assert(srgb_encoded(192, 2481, 65535)) by (nonlinear_arith);
            2481
        },
        13 => {
            assert(srgb_encoded(208, 2687, 65535)) by (nonlinear_arith);
            2687
        },
        14 => {
            assert(srgb_encoded(224, 2884, 65535)) by (nonlinear_arith);
            2884
        },
        15 => {
            assert(srgb_encoded(240, 3073, 65535)) by (nonlinear_arith);
            3073
        },
        16 => {
            assert(srgb_encoded(256, 3255, 65535)) by (nonlinear_arith);
            3255
        },
        17 => {
            assert(srgb_encoded(272, 3431, 65535)) by (nonlinear_arith);
            3431
        },
        18 => {
            assert(srgb_encoded(288, 3600, 65535)) by (nonlinear_arith);
            3600
        },
        19 => {
            assert(srgb_encoded(304, 3764, 65535)) by (nonlinear_arith);
            3764
        },
        20 => {
            assert(srgb_encoded(320, 3923, 65535)) by (nonlinear_arith);
            3923
        },
        21 => {
            assert(srgb_encoded(336, 4078, 65535)) by (nonlinear_arith);
            4078
        },
        22 => {
            assert(srgb_encoded(352, 4228, 65535)) by (nonlinear_arith);
            4228
        },
        23 => {
            assert(srgb_encoded(368, 4375, 65535)) by (nonlinear_arith);
            4375
        },
        24 => {
            assert(srgb_encoded(384, 4518, 65535)) by (nonlinear_arith);
            4518
        },
        25 => {
            assert(srgb_encoded(400, 4657, 65535)) by (nonlinear_arith);
            4657
        },
        26 => {
            assert(srgb_encoded(416, 4793, 65535)) by (nonlinear_arith);
            4793
        },
        27 => {
            assert(srgb_encoded(432, 4926, 65535)) by (nonlinear_arith);
            4926
        },
        28 => {
            assert(srgb_encoded(448, 5056, 65535)) by (nonlinear_arith);
            5056
        },
        29 => {
            assert(srgb_encoded(464, 5184, 65535)) by (nonlinear_arith);
            5184
        },
        30 => {
            assert(srgb_encoded(480, 5309, 65535)) by (nonlinear_arith);
            5309
        },
        31 => {
            assert(srgb_encoded(496, 5432, 65535)) by (nonlinear_arith);
            5432
        },
        32 => {
            assert(srgb_encoded(512, 5552, 65535)) by (nonlinear_arith);
            5552
        },
        33 => {
            assert(srgb_encoded(528, 5670, 65535)) by (nonlinear_arith);
            5670
        },
        34 => {
            assert(srgb_encoded(544, 5786, 65535)) by (nonlinear_arith);
            5786
        },
        35 => {
            assert(srgb_encoded(560, 5900, 65535)) by (nonlinear_arith);
            5900
        },
        36 => {
            assert(srgb_encoded(576, 6013, 65535)) by (nonlinear_arith);
            6013
        },
        37 => {
            assert(srgb_encoded(592, 6123, 65535)) by (nonlinear_arith);
            6123
        },
        38 => {
            assert(srgb_encoded(608, 6232, 65535)) by (nonlinear_arith);
            6232
        },
        39 => {
            assert(srgb_encoded(624, 6339, 65535)) by (nonlinear_arith);
            6339
        },
        40 => {
            assert(srgb_encoded(640, 6444, 65535)) by (nonlinear_arith);
            6444
        },
        41 => {
            assert(srgb_encoded(656, 6548, 65535)) by (nonlinear_arith);
            6548
        },
        42 => {
            assert(srgb_encoded(672, 6650, 65535)) by (nonlinear_arith);
            6650
        },
        43 => {
            assert(srgb_encoded(688, 6752, 65535)) by (nonlinear_arith);
            6752
        },
        44 => {
            assert(srgb_encoded(704, 6851, 65535)) by (nonlinear_arith);
            6851
        },
        45 => {
            assert(srgb_encoded(720, 6950, 65535)) by (nonlinear_arith);
            6950
        },
        46 => {
            assert(srgb_encoded(736, 7047, 65535)) by (nonlinear_arith);
            7047
        },
        47 => {
            assert(srgb_encoded(752, 7143, 65535)) by (nonlinear_arith);
            7143
        },
        48 => {
            assert(srgb_encoded(768, 7237, 65535)) by (nonlinear_arith);
            7237
        },
        49 => {
            assert(srgb_encoded(784, 7331, 65535)) by (nonlinear_arith);
            7331
        },
        50 => {
            assert(srgb_encoded(800, 7423, 65535)) by (nonlinear_arith);
            7423
        },
        51 => {
            assert(srgb_encoded(816, 7515, 65535)) by (nonlinear_arith);
            7515
        },
        52 => {
            assert(srgb_encoded(832, 7605, 65535)) by (nonlinear_arith);
            7605
        },
        53 => {
            assert(srgb_encoded(848, 7694, 65535)) by (nonlinear_arith);
            7694
        },
        54 => {
            assert(srgb_encoded(864, 7783, 65535)) by (nonlinear_arith);
            7783
        },
        55 => {
            assert(srgb_encoded(880, 7870, 65535)) by (nonlinear_arith);
            7870
        },
        56 => {
            assert(srgb_encoded(896, 7956, 65535)) by (nonlinear_arith);
            7956
        },
        57 => {
            assert(srgb_encoded(912, 8042, 65535)) by (nonlinear_arith);
            8042
        },
        58 => {
            assert(srgb_encoded(928, 8127, 65535)) by (nonlinear_arith);
            8127
        },
        59 => {
            assert(srgb_encoded(944, 8211, 65535)) by (nonlinear_arith);
            8211
        },
        60 => {
            assert(srgb_encoded(960, 8294, 65535)) by (nonlinear_arith);
            8294
        },
        61 => {
            assert(srgb_encoded(976, 8376, 65535)) by (nonlinear_arith);
            8376
        },
        62 => {
            assert(srgb_encoded(992, 8457, 65535)) by (nonlinear_arith);
            8457
        },
        63 => {
            assert(srgb_encoded(1008, 8538, 65535)) by (nonlinear_arith);
            8538
        },
        64 => {
            assert(srgb_encoded(1024, 8618, 65535)) by (nonlinear_arith);
            8618
        },
        65 => {
            assert(srgb_encoded(1040, 8697, 65535)) by (nonlinear_arith);
            8697
        },
        66 => {
            assert(srgb_encoded(1056, 8776, 65535)) by (nonlinear_arith);
            8776
        },
        67 => {
            assert(srgb_encoded(1072, 8853, 65535)) by (nonlinear_arith);
            8853
        },
        68 => {
            assert(srgb_encoded(1088, 8931, 65535)) by (nonlinear_arith);
            8931
        },
        69 => {
            assert(srgb_encoded(1104, 9007, 65535)) by (nonlinear_arith);
            9007
        },
        70 => {
            assert(srgb_encoded(1120, 9083, 65535)) by (nonlinear_arith);
            9083
        },
        71 => {
            assert(srgb_encoded(1136, 9158, 65535)) by (nonlinear_arith);
            9158
        },
        72 => {
            assert(srgb_encoded(1152, 9233, 65535)) by (nonlinear_arith);
            9233
        },
        73 => {
            assert(srgb_encoded(1168, 9307, 65535)) by (nonlinear_arith);
            9307
        },
        74 => {
            assert(srgb_encoded(1184, 9380, 65535)) by (nonlinear_arith);
            9380
        },
        75 => {
            assert(srgb_encoded(1200, 9453, 65535)) by (nonlinear_arith);
            9453
        },
        76 => {
            assert(srgb_encoded(1216, 9525, 65535)) by (nonlinear_arith);
            9525
        },
        77 => {
            assert(srgb_encoded(1232, 9597, 65535)) by (nonlinear_arith);
            9597
        },
        78 => {
            assert(srgb_encoded(1248, 9668, 65535)) by (nonlinear_arith);
            9668
        },
        79 => {
            assert(srgb_encoded(1264, 9739, 65535)) by (nonlinear_arith);
            9739
        },
        80 => {
            assert(srgb_encoded(1280, 9809, 65535)) by (nonlinear_arith);
            9809
        },
        81 => {
            assert(srgb_encoded(1296, 9878, 65535)) by (nonlinear_arith);
            9878
        },
        82 => {
            assert(srgb_encoded(1312, 9947, 65535)) by (nonlinear_arith);
            9947
        },
        83 => {
            assert(srgb_encoded(1328, 10016, 65535)) by (nonlinear_arith);
            10016
        },
        84 => {
            assert(srgb_encoded(1344, 10084, 65535)) by (nonlinear_arith);
            10084
        },
        85 => {
            assert(srgb_encoded(1360, 10152, 65535)) by (nonlinear_arith);
            10152
        },
        86 => {
            assert(srgb_encoded(1376, 10219, 65535)) by (nonlinear_arith);
            10219
        },
        87 => {
            assert(srgb_encoded(1392, 10286, 65535)) by (nonlinear_arith);
            10286
        },
        88 => {
            assert(srgb_encoded(1408, 10352, 65535)) by (nonlinear_arith);
            10352
        },
        89 => {
            assert(srgb_encoded(1424, 10418, 65535)) by (nonlinear_arith);
            10418
        },
        90 => {
            assert(srgb_encoded(1440, 10483, 65535)) by (nonlinear_arith);
            10483
        },
        91 => {
            assert(srgb_encoded(1456, 10548, 65535)) by (nonlinear_arith);
            10548
        },
        92 => {
            assert(srgb_encoded(1472, 10613, 65535)) by (nonlinear_arith);
            10613
        },
        93 => {
            assert(srgb_encoded(1488, 10677, 65535)) by (nonlinear_arith);
            10677
        },
        94 => {
            assert(srgb_encoded(1504, 10741, 65535)) by (nonlinear_arith);
            10741
        },
        95 => {
            assert(srgb_encoded(1520, 10804, 65535)) by (nonlinear_arith);
            10804
        },
        96 => {
            assert(srgb_encoded(1536, 10867, 65535)) by (nonlinear_arith);
            10867
        },
        97 => {
            assert(srgb_encoded(1552, 10930, 65535)) by (nonlinear_arith);
            10930
        },
        98 => {
            assert(srgb_encoded(1568, 10992, 65535)) by (nonlinear_arith);
            10992
        },
        99 => {
            assert(srgb_encoded(1584, 11054, 65535)) by (nonlinear_arith);
            11054
        },
        100 => {
            assert(srgb_encoded(1600, 11116, 65535)) by (nonlinear_arith);
            11116
        },
        101 => {
            assert(srgb_encoded(1616, 11177, 65535)) by (nonlinear_arith);
            11177
        },
        102 => {
            assert(srgb_encoded(1632, 11238, 65535)) by (nonlinear_arith);
            11238
        },
        103 => {
            assert(srgb_encoded(1648, 11298, 65535)) by (nonlinear_arith);
            11298
        },
        104 => {
            assert(srgb_encoded(1664, 11358, 65535)) by (nonlinear_arith);
            11358
        },
        105 => {
            assert(srgb_encoded(1680, 11418, 65535)) by (nonlinear_arith);
            11418
        },
        106 => {
            assert(srgb_encoded(1696, 11477, 65535)) by (nonlinear_arith);
            11477
        },
        107 => {
            assert(srgb_encoded(1712, 11537, 65535)) by (nonlinear_arith);
            11537
        },
        108 => {
            assert(srgb_encoded(1728, 11595, 65535)) by (nonlinear_arith);
            11595
        },
        109 => {
            assert(srgb_encoded(1744, 11654, 65535)) by (nonlinear_arith);
            11654
        },
        110 => {
            assert(srgb_encoded(1760, 11712, 65535)) by (nonlinear_arith);
            11712
        },
        111 => {
            assert(srgb_encoded(1776, 11770, 65535)) by (nonlinear_arith);
            11770
        },
        112 => {
            assert(srgb_encoded(1792, 11827, 65535)) by (nonlinear_arith);
            11827
        },
        113 => {
            assert(srgb_encoded(1808, 11885, 65535)) by (nonlinear_arith);
            11885
        },
        114 => {
            assert(srgb_encoded(1824, 11942, 65535)) by (nonlinear_arith);
            11942
        },
        115 => {
            assert(srgb_encoded(1840, 11998, 65535)) by (nonlinear_arith);
            11998
        },
        116 => {
            assert(srgb_encoded(1856, 12055, 65535)) by (nonlinear_arith);
            12055
        },
        117 => {
            assert(srgb_encoded(1872, 12111, 65535)) by (nonlinear_arith);
            12111
        },
        118 => {
            assert(srgb_encoded(1888, 12167, 65535)) by (nonlinear_arith);
            12167
        },
        119 => {
            assert(srgb_encoded(1904, 12222, 65535)) by (nonlinear_arith);
            12222
        },
        120 => {
            assert(srgb_encoded(1920, 12278, 65535)) by (nonlinear_arith);
            12278
        },
        121 => {
            assert(srgb_encoded(1936, 12333, 65535)) by (nonlinear_arith);
            12333
        },
        122 => {
            assert(srgb_encoded(1952, 12387, 65535)) by (nonlinear_arith);
            12387
        },
        123 => {
            assert(srgb_encoded(1968, 12442, 65535)) by (nonlinear_arith);
            12442
        },
        124 => {
            assert(srgb_encoded(1984, 12496, 65535)) by (nonlinear_arith);
            12496
        },
        125 => {
            assert(srgb_encoded(2000, 12550, 65535)) by (nonlinear_arith);
            12550
        },
        126 => {
            assert(srgb_encoded(2016, 12604, 65535)) by (nonlinear_arith);
            12604
        },
        127 => {
            assert(srgb_encoded(2032, 12657, 65535)) by (nonlinear_arith);
            12657
        },
        128 => {
            assert(srgb_encoded(2048, 12710, 65535)) by (nonlinear_arith);
            12710
        },
        129 => {
            assert(srgb_encoded(2064, 12763, 65535)) by (nonlinear_arith);
            12763
        },
        130 => {
            assert(srgb_encoded(2080, 12816, 65535)) by (nonlinear_arith);
            12816
        },
        131 => {
            assert(srgb_encoded(2096, 12869, 65535)) by (nonlinear_arith);
            12869
        },
        132 => {
            assert(srgb_encoded(2112, 12921, 65535)) by (nonlinear_arith);
            12921
        },
        133 => {
            assert(srgb_encoded(2128, 12973, 65535)) by (nonlinear_arith);
            12973
        },
        134 => {
            assert(srgb_encoded(2144, 13025, 65535)) by (nonlinear_arith);
            13025
        },
        135 => {
            assert(srgb_encoded(2160, 13076, 65535)) by (nonlinear_arith);
            13076
        },
        136 => {
            assert(srgb_encoded(2176, 13128, 65535)) by (nonlinear_arith);
            13128
        },
        137 => {
            assert(srgb_encoded(2192, 13179, 65535)) by (nonlinear_arith);
            13179
        },
        138 => {
            assert(srgb_encoded(2208, 13230, 65535)) by (nonlinear_arith);
            13230
        },
        139 => {
            assert(srgb_encoded(2224, 13281, 65535)) by (nonlinear_arith);
            13281
        },
        140 => {
            assert(srgb_encoded(2240, 13331, 65535)) by (nonlinear_arith);
            13331
        },
        141 => {
            assert(srgb_encoded(2256, 13381, 65535)) by (nonlinear_arith);
            13381
        },
        142 => {
            assert(srgb_encoded(2272, 13431, 65535)) by (nonlinear_arith);
            13431
        },
        143 => {
            assert(srgb_encoded(2288, 13481, 65535)) by (nonlinear_arith);
            13481
        },
        144 => {
            assert(srgb_encoded(2304, 13531, 65535)) by (nonlinear_arith);
            13531
        },
        145 => {
            assert(srgb_encoded(2320, 13581, 65535)) by (nonlinear_arith);
            13581
        },
        146 => {
            assert(srgb_encoded(2336, 13630, 65535)) by (nonlinear_arith);
            13630
        },
        147 => {
            assert(srgb_encoded(2352, 13679, 65535)) by (nonlinear_arith);
            13679
        },
        148 => {
            assert(srgb_encoded(2368, 13728, 65535)) by (nonlinear_arith);
            13728
        },
        149 => {
            assert(srgb_encoded(2384, 13776, 65535)) by (nonlinear_arith);
            13776
        },
        150 => {
            assert(srgb_encoded(2400, 13825, 65535)) by (nonlinear_arith);
            13825
        },
        151 => {
            assert(srgb_encoded(2416, 13873, 65535)) by (nonlinear_arith);
            13873
        },
        152 => {
            assert(srgb_encoded(2432, 13921, 65535)) by (nonlinear_arith);
            13921
        },
        153 => {
            assert(srgb_encoded(2448, 13969, 65535)) by (nonlinear_arith);
            13969
        },
        154 => {
            assert(srgb_encoded(2464, 14017, 65535)) by (nonlinear_arith);
            14017
        },
        155 => {
            assert(srgb_encoded(2480, 14065, 65535)) by (nonlinear_arith);
            14065
        },
        156 => {
            assert(srgb_encoded(2496, 14112, 65535)) by (nonlinear_arith);
            14112
        },
        157 => {
            assert(srgb_encoded(2512, 14159, 65535)) by (nonlinear_arith);
            14159
        },
        158 => {
            assert(srgb_encoded(2528, 14206, 65535)) by (nonlinear_arith);
            14206
        },
        159 => {
            assert(srgb_encoded(2544, 14253, 65535)) by (nonlinear_arith);
            14253
        },
        160 => {
            assert(srgb_encoded(2560, 14300, 65535)) by (nonlinear_arith);
            14300
        },
        161 => {
            assert(srgb_encoded(2576, 14347, 65535)) by (nonlinear_arith);
            14347
        },
        162 => {
            assert(srgb_encoded(2592, 14393, 65535)) by (nonlinear_arith);
            14393
        },
        163 => {
            assert(srgb_encoded(2608, 14439, 65535)) by (nonlinear_arith);
            14439
        },
        164 => {
            assert(srgb_encoded(2624, 14485, 65535)) by (nonlinear_arith);
            14485
        },
        165 => {
            assert(srgb_encoded(2640, 14531, 65535)) by (nonlinear_arith);
            14531
        },
        166 => {
            assert(srgb_encoded(2656, 14577, 65535)) by (nonlinear_arith);
            14577
        },
        167 => {
            assert(srgb_encoded(2672, 14622, 65535)) by (nonlinear_arith);
            14622
        },
        168 => {
            assert(srgb_encoded(2688, 14668, 65535)) by (nonlinear_arith);
            14668
        },
        169 => {
            assert(srgb_encoded(2704, 14713, 65535)) by (nonlinear_arith);
            14713
        },
        170 => {
            assert(srgb_encoded(2720, 14758, 65535)) by (nonlinear_arith);
            14758
        },
        171 => {
            assert(srgb_encoded(2736, 14803, 65535)) by (nonlinear_arith);
            14803
        },
        172 => {
            assert(srgb_encoded(2752, 14848, 65535)) by (nonlinear_arith);
            14848
        },
        173 => {
            assert(srgb_encoded(2768, 14892, 65535)) by (nonlinear_arith);
            14892
        },
        174 => {
            assert(srgb_encoded(2784, 14937, 65535)) by (nonlinear_arith);
            14937
        },
        175 => {
            assert(srgb_encoded(2800, 14981, 65535)) by (nonlinear_arith);
            14981
        },
        176 => {
            assert(srgb_encoded(2816, 15025, 65535)) by (nonlinear_arith);
            15025
        },
        177 => {
            assert(srgb_encoded(2832, 15069, 65535)) by (nonlinear_arith);
            15069
        },
        178 => {
            assert(srgb_encoded(2848, 15113, 65535)) by (nonlinear_arith);
            15113
        },
        179 => {
            assert(srgb_encoded(2864, 15157, 65535)) by (nonlinear_arith);
            15157
        },
        180 => {
            assert(srgb_encoded(2880, 15201, 65535)) by (nonlinear_arith);
            15201
        },
        181 => {
            assert(srgb_encoded(2896, 15244, 65535)) by (nonlinear_arith);
            15244
        },
        182 => {
            assert(srgb_encoded(2912, 15287, 65535)) by (nonlinear_arith);
            15287
        },
        183 => {
            assert(srgb_encoded(2928, 15331, 65535)) by (nonlinear_arith);
            15331
        },
        184 => {
            assert(srgb_encoded(2944, 15374, 65535)) by (nonlinear_arith);
            15374
        },
        185 => {
            assert(srgb_encoded(2960, 15417, 65535)) by (nonlinear_arith);
            15417
        },
        186 => {
            assert(srgb_encoded(2976, 15459, 65535)) by (nonlinear_arith);
            15459
        },
        187 => {
            assert(srgb_encoded(2992, 15502, 65535)) by (nonlinear_arith);
            15502
        },
        188 => {
            assert(srgb_encoded(3008, 15544, 65535)) by (nonlinear_arith);
            15544
        },
        189 => {
            assert(srgb_encoded(3024, 15587, 65535)) by (nonlinear_arith);
            15587
        },
        190 => {
            assert(srgb_encoded(3040, 15629, 65535)) by (nonlinear_arith);
            15629
        },
        191 => {
            assert(srgb_encoded(3056, 15671, 65535)) by (nonlinear_arith);
            15671
        },
        192 => {
            assert(srgb_encoded(3072, 15713, 65535)) by (nonlinear_arith);
            15713
        },
        193 => {
            assert(srgb_encoded(3088, 15755, 65535)) by (nonlinear_arith);
            15755
        },
        194 => {
            assert(srgb_encoded(3104, 15797, 65535)) by (nonlinear_arith);
            15797
        },
        195 => {
            assert(srgb_encoded(3120, 15838, 65535)) by (nonlinear_arith);
            15838
        },
        196 => {
            assert(srgb_encoded(3136, 15880, 65535)) by (nonlinear_arith);
            15880
        },
        197 => {
            assert(srgb_encoded(3152, 15921, 65535)) by (nonlinear_arith);
            15921
        },
        198 => {
            assert(srgb_encoded(3168, 15962, 65535)) by (nonlinear_arith);
            15962
        },
        199 => {
            assert(srgb_encoded(3184, 16004, 65535)) by (nonlinear_arith);
            16004
        },
        200 => {
            assert(srgb_encoded(3200, 16045, 65535)) by (nonlinear_arith);
            16045
        },
        201 => {
            assert(srgb_encoded(3216, 16085, 65535)) by (nonlinear_arith);
            16085
        },
        202 => {
            assert(srgb_encoded(3232, 16126, 65535)) by (nonlinear_arith);
            16126
        },
        203 => {
            assert(srgb_encoded(3248, 16167, 65535)) by (nonlinear_arith);
            16167
        },
        204 => {
            assert(srgb_encoded(3264, 16207, 65535)) by (nonlinear_arith);
            16207
        },
        205 => {
            assert(srgb_encoded(3280, 16248, 65535)) by (nonlinear_arith);
            16248
        },
        206 => {
            assert(srgb_encoded(3296, 16288, 65535)) by (nonlinear_arith);
            16288
        },
        207 => {
            assert(srgb_encoded(3312, 16328, 65535)) by (nonlinear_arith);
            16328
        },
        208 => {
            assert(srgb_encoded(3328, 16368, 65535)) by (nonlinear_arith);
            16368
        },
        209 => {
            assert(srgb_encoded(3344, 16408, 65535)) by (nonlinear_arith);
            16408
        },
        210 => {
            assert(srgb_encoded(3360, 16448, 65535)) by (nonlinear_arith);
            16448
        },
        211 => {
            assert(srgb_encoded(3376, 16488, 65535)) by (nonlinear_arith);
            16488
        },
        212 => {
            assert(srgb_encoded(3392, 16527, 65535)) by (nonlinear_arith);
            16527
        },
        213 => {
            assert(srgb_encoded(3408, 16567, 65535)) by (nonlinear_arith);
            16567
        },
        214 => {
            assert(srgb_encoded(3424, 16606, 65535)) by (nonlinear_arith);
            16606
        },
        215 => {
            assert(srgb_encoded(3440, 16646, 65535)) by (nonlinear_arith);
            16646
        },
        216 => {
            assert(srgb_encoded(3456, 16685, 65535)) by (nonlinear_arith);
            16685
        },
        217 => {
            assert(srgb_encoded(3472, 16724, 65535)) by (nonlinear_arith);
            16724
        },
        218 => {
            assert(srgb_encoded(3488, 16763, 65535)) by (nonlinear_arith);
            16763
        },
        219 => {
            assert(srgb_encoded(3504, 16802, 65535)) by (nonlinear_arith);
            16802
        },
        220 => {
            assert(srgb_encoded(3520, 16841, 65535)) by (nonlinear_arith);
            16841
        },
        221 => {
            assert(srgb_encoded(3536, 16879, 65535)) by (nonlinear_arith);
            16879
        },
        222 => {
            assert(srgb_encoded(3552, 16918, 65535)) by (nonlinear_arith);
            16918
        },
        223 => {
            assert(srgb_encoded(3568, 16956, 65535)) by (nonlinear_arith);
            16956
        },
        224 => {
            assert(srgb_encoded(3584, 16995, 65535)) by (nonlinear_arith);
            16995
        },
        225 => {
            assert(srgb_encoded(3600, 17033, 65535)) by (nonlinear_arith);
            17033
        },
        226 => {
            assert(srgb_encoded(3616, 17071, 65535)) by (nonlinear_arith);
            17071
        },
        227 => {
            assert(srgb_encoded(3632, 17109, 65535)) by (nonlinear_arith);
            17109
        },
        228 => {
            assert(srgb_encoded(3648, 17147, 65535)) by (nonlinear_arith);
            17147
        },
        229 => {
            assert(srgb_encoded(3664, 17185, 65535)) by (nonlinear_arith);
            17185
        },
        230 => {
            assert(srgb_encoded(3680, 17223, 65535)) by (nonlinear_arith);
            17223
        },
        231 => {
            assert(srgb_encoded(3696, 17261, 65535)) by (nonlinear_arith);
            17261
        },
        232 => {
            assert(srgb_encoded(3712, 17298, 65535)) by (nonlinear_arith);
            17298
        },
        233 => {
            assert(srgb_encoded(3728, 17336, 65535)) by (nonlinear_arith);
            17336
        },
        234 => {
            assert(srgb_encoded(3744, 17373, 65535)) by (nonlinear_arith);
            17373
        },
        235 => {
            assert(srgb_encoded(3760, 17410, 65535)) by (nonlinear_arith);
            17410
        },
        236 => {
            assert(srgb_encoded(3776, 17448, 65535)) by (nonlinear_arith);
            17448
        },
        237 => {
            assert(srgb_encoded(3792, 17485, 65535)) by (nonlinear_arith);
            17485
        },
        238 => {
            assert(srgb_encoded(3808, 17522, 65535)) by (nonlinear_arith);
            17522
        },
        239 => {
            assert(srgb_encoded(3824, 17559, 65535)) by (nonlinear_arith);
            17559
        },
        240 => {
            assert(srgb_encoded(3840, 17595, 65535)) by (nonlinear_arith);
            17595
        },
        241 => {
            assert(srgb_encoded(3856, 17632, 65535)) by (nonlinear_arith);
            17632
        },
        242 => {
            assert(srgb_encoded(3872, 17669, 65535)) by (nonlinear_arith);
            17669
        },
        243 => {
            assert(srgb_encoded(3888, 17705, 65535)) by (nonlinear_arith);
            17705
        },
        244 => {
            assert(srgb_encoded(3904, 17742, 65535)) by (nonlinear_arith);
            17742
        },
        245 => {
            assert(srgb_encoded(3920, 17778, 65535)) by (nonlinear_arith);
            17778
        },
        246 => {
            assert(srgb_encoded(3936, 17815, 65535)) by (nonlinear_arith);
            17815
        },
        247 => {
            assert(srgb_encoded(3952, 17851, 65535)) by (nonlinear_arith);
            17851
        },
        248 => {
            assert(srgb_encoded(3968, 17887, 65535)) by (nonlinear_arith);
            17887
        },
        249 => {
            assert(srgb_encoded(3984, 17923, 65535)) by (nonlinear_arith);
            17923
        },
        250 => {
            assert(srgb_encoded(4000, 17959, 65535)) by (nonlinear_arith);
            17959
        },
        251 => {
            assert(srgb_encoded(4016, 17995, 65535)) by (nonlinear_arith);
            17995
        },
        252 => {
            assert(srgb_encoded(4032, 18031, 65535)) by (nonlinear_arith);
            18031
        },
        253 => {
            assert(srgb_encoded(4048, 18067, 65535)) by (nonlinear_arith);
            18067
        },
        254 => {
            assert(srgb_encoded(4064, 18102, 65535)) by (nonlinear_arith);
            18102
        },
        255 => {
            assert(srgb_encoded(4080, 18138, 65535)) by (nonlinear_arith);
            18138
        },
        _ => {
            assert(srgb_encoded(4096, 18173, 65535)) by (nonlinear_arith);
            18173
        },
    }
}

/// Look up `decode16_knots`.
pub(crate) fn decode16_knot_lookup(k: u8) -> (r: u16)
    ensures
        r == decode16_knots(k as int),
        srgb_decoded(k as int * 257, r as int, 65535),
{
    match k {
        0 => {
            assert(srgb_decoded(0, 0, 65535)) by (nonlinear_arith);
            0
        },
        1 => {
            assert(srgb_decoded(257, 20, 65535)) by (nonlinear_arith);
            20
        },
        2 => {
            assert(srgb_decoded(514, 40, 65535)) by (nonlinear_arith);
            40
        },
        3 => {
            assert(srgb_decoded(771, 60, 65535)) by (nonlinear_arith);
            60
        },
        4 => {
            assert(srgb_decoded(1028, 80, 65535)) by (nonlinear_arith);
            80
        },
        5 => {
            assert(srgb_decoded(1285, 99, 65535)) by (nonlinear_arith);
            99
        },
        6 => {
            assert(srgb_decoded(1542, 119, 65535)) by (nonlinear_arith);
            119
        },
        7 => {
            assert(srgb_decoded(1799, 139, 65535)) by (nonlinear_arith);
            139
        },
        8 => {
            assert(srgb_decoded(2056, 159, 65535)) by (nonlinear_arith);
            159
        },
        9 => {
            assert(srgb_decoded(2313, 179, 65535)) by (nonlinear_arith);
            179
        },
        10 => {
            assert(srgb_decoded(2570, 199, 65535)) by (nonlinear_arith);
            199
        },
        11 => {
            assert(srgb_decoded(2827, 219, 65535)) by (nonlinear_arith);
            219
        },
        12 => {
            assert(srgb_decoded(3084, 241, 65535)) by (nonlinear_arith);
            241
        },
        13 => {
            assert(srgb_decoded(3341, 264, 65535)) by (nonlinear_arith);
            264
        },
        14 => {
            assert(srgb_decoded(3598, 288, 65535)) by (nonlinear_arith);
            288
        },
        15 => {
            assert(srgb_decoded(3855, 313, 65535)) by (nonlinear_arith);
            313
        },
        16 => {
            assert(srgb_decoded(4112, 340, 65535)) by (nonlinear_arith);
            340
        },
        17 => {
            assert(srgb_decoded(4369, 367, 65535)) by (nonlinear_arith);
            367
        },
        18 => {
            assert(srgb_decoded(4626, 396, 65535)) by (nonlinear_arith);
            396
        },
        19 => {
            assert(srgb_decoded(4883, 427, 65535)) by (nonlinear_arith);
            427
        },
        20 => {
            assert(srgb_decoded(5140, 458, 65535)) by (nonlinear_arith);
            458
        },
        21 => {
            assert(srgb_decoded(5397, 491, 65535)) by (nonlinear_arith);
            491
        },
        22 => {
            assert(srgb_decoded(5654, 526, 65535)) by (nonlinear_arith);
            526
        },
        23 => {
            assert(srgb_decoded(5911, 562, 65535)) by (nonlinear_arith);
            562
        },
        24 => {
            assert(srgb_decoded(6168, 599, 65535)) by (nonlinear_arith);
            599
        },
        25 => {
            assert(srgb_decoded(6425, 637, 65535)) by (nonlinear_arith);
            637
        },
        26 => {
            assert(srgb_decoded(6682, 677, 65535)) by (nonlinear_arith);
            677
        },
        27 => {
            assert(srgb_decoded(6939, 718, 65535)) by (nonlinear_arith);
            718
        },
        28 => {
            assert(srgb_decoded(7196, 761, 65535)) by (nonlinear_arith);
            761
        },
        29 => {
            assert(srgb_decoded(7453, 805, 65535)) by (nonlinear_arith);
            805
        },
        30 => {
            assert(srgb_decoded(7710, 851, 65535)) by (nonlinear_arith);
            851
        },
        31 => {
            assert(srgb_decoded(7967, 898, 65535)) by (nonlinear_arith);
            898
        },
        32 => {
            assert(srgb_decoded(8224, 947, 65535)) by (nonlinear_arith);
            947
        },
        33 => {
            assert(srgb_decoded(8481, 997, 65535)) by (nonlinear_arith);
            997
        },
        34 => {
            assert(srgb_decoded(8738, 1048, 65535)) by (nonlinear_arith);
            1048
        },
        35 => {
            assert(srgb_decoded(8995, 1101, 65535)) by (nonlinear_arith);
            1101
        },
        36 => {
            assert(srgb_decoded(9252, 1156, 65535)) by (nonlinear_arith);
            1156
        },
        37 => {
            assert(srgb_decoded(9509, 1212, 65535)) by (nonlinear_arith);
            1212
        },
        38 => {
            assert(srgb_decoded(9766, 1270, 65535)) by (nonlinear_arith);
            1270
        },
        39 => {
            assert(srgb_decoded(10023, 1330, 65535)) by (nonlinear_arith);
            1330
        },
        40 => {
            assert(srgb_decoded(10280, 1391, 65535)) by (nonlinear_arith);
            1391
        },
        41 => {
            assert(srgb_decoded(10537, 1453, 65535)) by (nonlinear_arith);
            1453
        },
        42 => {
            assert(srgb_decoded(10794, 1517, 65535)) by (nonlinear_arith);
            1517
        },
        43 => {
            assert(srgb_decoded(11051, 1583, 65535)) by (nonlinear_arith);
            1583
        },
        44 => {
            assert(srgb_decoded(11308, 1651, 65535)) by (nonlinear_arith);
            1651
        },
        45 => {
            assert(srgb_decoded(11565, 1720, 65535)) by (nonlinear_arith);
            1720
        },
        46 => {
            assert(srgb_decoded(11822, 1790, 65535)) by (nonlinear_arith);
            1790
        },
        47 => {
            assert(srgb_decoded(12079, 1863, 65535)) by (nonlinear_arith);
            1863
        },
        48 => {
            assert(srgb_decoded(12336, 1937, 65535)) by (nonlinear_arith);
            1937
        },
        49 => {
            assert(srgb_decoded(12593, 2013, 65535)) by (nonlinear_arith);
            2013
        },
        50 => {
            assert(srgb_decoded(12850, 2090, 65535)) by (nonlinear_arith);
            2090
        },
        51 => {
            assert(srgb_decoded(13107, 2170, 65535)) by (nonlinear_arith);
            2170
        },
        52 => {
            assert(srgb_decoded(13364, 2250, 65535)) by (nonlinear_arith);
            2250
        },
        53 => {
            assert(srgb_decoded(13621, 2333, 65535)) by (nonlinear_arith);
            2333
        },
        54 => {
            assert(srgb_decoded(13878, 2418, 65535)) by (nonlinear_arith);
            2418
        },
        55 => {
            assert(srgb_decoded(14135, 2504, 65535)) by (nonlinear_arith);
            2504
        },
        56 => {
            assert(srgb_decoded(14392, 2592, 65535)) by (nonlinear_arith);
            2592
        },
        57 => {
            assert(srgb_decoded(14649, 2681, 65535)) by (nonlinear_arith);
            2681
        },
        58 => {
            assert(srgb_decoded(14906, 2773, 65535)) by (nonlinear_arith);
            2773
        },
        59 => {
            assert(srgb_decoded(15163, 2866, 65535)) by (nonlinear_arith);
            2866
        },
        60 => {
            assert(srgb_decoded(15420, 2961, 65535)) by (nonlinear_arith);
            2961
        },
        61 => {
            assert(srgb_decoded(15677, 3058, 65535)) by (nonlinear_arith);
            3058
        },
        62 => {
            assert(srgb_decoded(15934, 3157, 65535)) by (nonlinear_arith);
            3157
        },
        63 => {
            assert(srgb_decoded(16191, 3258, 65535)) by (nonlinear_arith);
            3258
        },
        64 => {
            assert(srgb_decoded(16448, 3360, 65535)) by (nonlinear_arith);
            3360
        },
        65 => {
            assert(srgb_decoded(16705, 3464, 65535)) by (nonlinear_arith);
            3464
        },
        66 => {
            assert(srgb_decoded(16962, 3570, 65535)) by (nonlinear_arith);
            3570
        },
        67 => {
            assert(srgb_decoded(17219, 3678, 65535)) by (nonlinear_arith);
            3678
        },
        68 => {
            assert(srgb_decoded(17476, 3788, 65535)) by (nonlinear_arith);
            3788
        },
        69 => {
            assert(srgb_decoded(17733, 3900, 65535)) by (nonlinear_arith);
            3900
        },
        70 => {
            assert(srgb_decoded(17990, 4014, 65535)) by (nonlinear_arith);
            4014
        },
        71 => {
            assert(srgb_decoded(18247, 4129, 65535)) by (nonlinear_arith);
            4129
        },
        72 => {
            assert(srgb_decoded(18504, 4247, 65535)) by (nonlinear_arith);
            4247
        },
        73 => {
            assert(srgb_decoded(18761, 4366, 65535)) by (nonlinear_arith);
            4366
        },
        74 => {
            assert(srgb_decoded(19018, 4488, 65535)) by (nonlinear_arith);
            4488
        },
        75 => {
            assert(srgb_decoded(19275, 4611, 65535)) by (nonlinear_arith);
            4611
        },
        76 => {
            assert(srgb_decoded(19532, 4736, 65535)) by (nonlinear_arith);
            4736
        },
        77 => {
            assert(srgb_decoded(19789, 4864, 65535)) by (nonlinear_arith);
            4864
        },
        78 => {
            assert(srgb_decoded(20046, 4993, 65535)) by (nonlinear_arith);
            4993
        },
        79 => {
            assert(srgb_decoded(20303, 5124, 65535)) by (nonlinear_arith);
            5124
        },
        80 => {
            assert(srgb_decoded(20560, 5257, 65535)) by (nonlinear_arith);
            5257
        },
        81 => {
            assert(srgb_decoded(20817, 5392, 65535)) by (nonlinear_arith);
            5392
        },
        82 => {
            assert(srgb_decoded(21074, 5530, 65535)) by (nonlinear_arith);
            5530
        },
        83 => {
            assert(srgb_decoded(21331, 5669, 65535)) by (nonlinear_arith);
            5669
        },
        84 => {
            assert(srgb_decoded(21588, 5810, 65535)) by (nonlinear_arith);
            5810
        },
        85 => {
            assert(srgb_decoded(21845, 5953, 65535)) by (nonlinear_arith);
            5953
        },
        86 => {
            assert(srgb_decoded(22102, 6099, 65535)) by (nonlinear_arith);
            6099
        },
        87 => {
            assert(srgb_decoded(22359, 6246, 65535)) by (nonlinear_arith);
            6246
        },
        88 => {
            assert(srgb_decoded(22616, 6395, 65535)) by (nonlinear_arith);
            6395
        },
        89 => {
            assert(srgb_decoded(22873, 6547, 65535)) by (nonlinear_arith);
            6547
        },
        90 => {
            assert(srgb_decoded(23130, 6700, 65535)) by (nonlinear_arith);
            6700
        },
        91 => {
            assert(srgb_decoded(23387, 6856, 65535)) by (nonlinear_arith);
            6856
        },
        92 => {
            assert(srgb_decoded(23644, 7014, 65535)) by (nonlinear_arith);
            7014
        },
        93 => {
            assert(srgb_decoded(23901, 7174, 65535)) by (nonlinear_arith);
            7174
        },
        94 => {
            assert(srgb_decoded(24158, 7335, 65535)) by (nonlinear_arith);
            7335
        },
        95 => {
            assert(srgb_decoded(24415, 7500, 65535)) by (nonlinear_arith);
            7500
        },
        96 => {
            assert(srgb_decoded(24672, 7666, 65535)) by (nonlinear_arith);
            7666
        },
        97 => {
            assert(srgb_decoded(24929, 7834, 65535)) by (nonlinear_arith);
            7834
        },
        98 => {
            assert(srgb_decoded(25186, 8004, 65535)) by (nonlinear_arith);
            8004
        },
        99 => {
            assert(srgb_decoded(25443, 8177, 65535)) by (nonlinear_arith);
            8177
        },
        100 => {
            assert(srgb_decoded(25700, 8352, 65535)) by (nonlinear_arith);
            8352
        },
        101 => {
            assert(srgb_decoded(25957, 8528, 65535)) by (nonlinear_arith);
            8528
        },
        102 => {
            assert(srgb_decoded(26214, 8708, 65535)) by (nonlinear_arith);
            8708
        },
        103 => {
            assert(srgb_decoded(26471, 8889, 65535)) by (nonlinear_arith);
            8889
        },
        104 => {
            assert(srgb_decoded(26728, 9072, 65535)) by (nonlinear_arith);
            9072
        },
        105 => {
            assert(srgb_decoded(26985, 9258, 65535)) by (nonlinear_arith);
            9258
        },
        106 => {
            assert(srgb_decoded(27242, 9445, 65535)) by (nonlinear_arith);
            9445
        },
        107 => {
            assert(srgb_decoded(27499, 9635, 65535)) by (nonlinear_arith);
            9635
        },
        108 => {
            assert(srgb_decoded(27756, 9828, 65535)) by (nonlinear_arith);
            9828
        },
        109 => {
            assert(srgb_decoded(28013, 10022, 65535)) by (nonlinear_arith);
            10022
        },
        110 => {
            assert(srgb_decoded(28270, 10219, 65535)) by (nonlinear_arith);
            10219
        },
        111 => {
            assert(srgb_decoded(28527, 10417, 65535)) by (nonlinear_arith);
            10417
        },
        112 => {
            assert(srgb_decoded(28784, 10619, 65535)) by (nonlinear_arith);
            10619
        },
        113 => {
            assert(srgb_decoded(29041, 10822, 65535)) by (nonlinear_arith);
            10822
        },
        114 => {
            assert(srgb_decoded(29298, 11028, 65535)) by (nonlinear_arith);
            11028
        },
        115 => {
            assert(srgb_decoded(29555, 11235, 65535)) by (nonlinear_arith);
            11235
        },
        116 => {
            assert(srgb_decoded(29812, 11446, 65535)) by (nonlinear_arith);
            11446
        },
        117 => {
            assert(srgb_decoded(30069, 11658, 65535)) by (nonlinear_arith);
            11658
        },
        118 => {
            assert(srgb_decoded(30326, 11873, 65535)) by (nonlinear_arith);
            11873
        },
        119 => {
            assert(srgb_decoded(30583, 12090, 65535)) by (nonlinear_arith);
            12090
        },
        120 => {
            assert(srgb_decoded(30840, 12309, 65535)) by (nonlinear_arith);
            12309
        },
        121 => {
            assert(srgb_decoded(31097, 12530, 65535)) by (nonlinear_arith);
            12530
        },
        122 => {
            assert(srgb_decoded(31354, 12754, 65535)) by (nonlinear_arith);
            12754
        },
        123 => {
            assert(srgb_decoded(31611, 12980, 65535)) by (nonlinear_arith);
            12980
        },
        124 => {
            assert(srgb_decoded(31868, 13209, 65535)) by (nonlinear_arith);
            13209
        },
        125 => {
            assert(srgb_decoded(32125, 13440, 65535)) by (nonlinear_arith);
            13440
        },
        126 => {
            assert(srgb_decoded(32382, 13673, 65535)) by (nonlinear_arith);
            13673
        },
        127 => {
            assert(srgb_decoded(32639, 13909, 65535)) by (nonlinear_arith);
            13909
        },
        128 => {
            assert(srgb_decoded(32896, 14146, 65535)) by (nonlinear_arith);
            14146
        },
        129 => {
            assert(srgb_decoded(33153, 14387, 65535)) by (nonlinear_arith);
            14387
        },
        130 => {
            assert(srgb_decoded(33410, 14629, 65535)) by (nonlinear_arith);
            14629
        },
        131 => {
            assert(srgb_decoded(33667, 14874, 65535)) by (nonlinear_arith);
            14874
        },
        132 => {
            assert(srgb_decoded(33924, 15122, 65535)) by (nonlinear_arith);
            15122
        },
        133 => {
            assert(srgb_decoded(34181, 15371, 65535)) by (nonlinear_arith);
            15371
        },
        134 => {
            assert(srgb_decoded(34438, 15623, 65535)) by (nonlinear_arith);
            15623
        },
        135 => {
            assert(srgb_decoded(34695, 15878, 65535)) by (nonlinear_arith);
            15878
        },
        136 => {
            assert(srgb_decoded(34952, 16135, 65535)) by (nonlinear_arith);
            16135
        },
        137 => {
            assert(srgb_decoded(35209, 16394, 65535)) by (nonlinear_arith);
            16394
        },
        138 => {
            assert(srgb_decoded(35466, 16656, 65535)) by (nonlinear_arith);
            16656
        },
        139 => {
            assert(srgb_decoded(35723, 16920, 65535)) by (nonlinear_arith);
            16920
        },
        140 => {
            assert(srgb_decoded(35980, 17187, 65535)) by (nonlinear_arith);
            17187
        },
        141 => {
            assert(srgb_decoded(36237, 17456, 65535)) by (nonlinear_arith);
            17456
        },
        142 => {
            assert(srgb_decoded(36494, 17727, 65535)) by (nonlinear_arith);
            17727
        },
        143 => {
            assert(srgb_decoded(36751, 18001, 65535)) by (nonlinear_arith);
            18001
        },
        144 => {
            assert(srgb_decoded(37008, 18277, 65535)) by (nonlinear_arith);
            18277
        },
        145 => {
            assert(srgb_decoded(37265, 18556, 65535)) by (nonlinear_arith);
            18556
        },
        146 => {
            assert(srgb_decoded(37522, 18837, 65535)) by (nonlinear_arith);
            18837
        },
        147 => {
            assert(srgb_decoded(37779, 19121, 65535)) by (nonlinear_arith);
            19121
        },
        148 => {
            assert(srgb_decoded(38036, 19407, 65535)) by (nonlinear_arith);
            19407
        },
        149 => {
            assert(srgb_decoded(38293, 19696, 65535)) by (nonlinear_arith);
            19696
        },
        150 => {
            assert(srgb_decoded(38550, 19987, 65535)) by (nonlinear_arith);
            19987
        },
        151 => {
            assert(srgb_decoded(38807, 20281, 65535)) by (nonlinear_arith);
            20281
        },
        152 => {
            assert(srgb_decoded(39064, 20577, 65535)) by (nonlinear_arith);
            20577
        },
        153 => {
            assert(srgb_decoded(39321, 20876, 65535)) by (nonlinear_arith);
            20876
        },
        154 => {
            assert(srgb_decoded(39578, 21177, 65535)) by (nonlinear_arith);
            21177
        },
        155 => {
            assert(srgb_decoded(39835, 21481, 65535)) by (nonlinear_arith);
            21481
        },
        156 => {
            assert(srgb_decoded(40092, 21787, 65535)) by (nonlinear_arith);
            21787
        },
        157 => {
            assert(srgb_decoded(40349, 22096, 65535)) by (nonlinear_arith);
            22096
        },
        158 => {
            assert(srgb_decoded(40606, 22407, 65535)) by (nonlinear_arith);
            22407
        },
        159 => {
            assert(srgb_decoded(40863, 22721, 65535)) by (nonlinear_arith);
            22721
        },
        160 => {
            assert(srgb_decoded(41120, 23038, 65535)) by (nonlinear_arith);
            23038
        },
        161 => {
            assert(srgb_decoded(41377, 23357, 65535)) by (nonlinear_arith);
            23357
        },
        162 => {
            assert(srgb_decoded(41634, 23678, 65535)) by (nonlinear_arith);
            23678
        },
        163 => {
            assert(srgb_decoded(41891, 24002, 65535)) by (nonlinear_arith);
            24002
        },
        164 => {
            assert(srgb_decoded(42148, 24329, 65535)) by (nonlinear_arith);
            24329
        },
        165 => {
            assert(srgb_decoded(42405, 24658, 65535)) by (nonlinear_arith);
            24658
        },
        166 => {
            assert(srgb_decoded(42662, 24990, 65535)) by (nonlinear_arith);
            24990
        },
        167 => {
            assert(srgb_decoded(42919, 25325, 65535)) by (nonlinear_arith);
            25325
        },
        168 => {
            assert(srgb_decoded(43176, 25662, 65535)) by (nonlinear_arith);
            25662
        },
        169 => {
            assert(srgb_decoded(43433, 26001, 65535)) by (nonlinear_arith);
            26001
        },
        170 => {
            assert(srgb_decoded(43690, 26344, 65535)) by (nonlinear_arith);
            26344
        },
        171 => {
            assert(srgb_decoded(43947, 26688, 65535)) by (nonlinear_arith);
            26688
        },
        172 => {
            assert(srgb_decoded(44204, 27036, 65535)) by (nonlinear_arith);
            27036
        },
        173 => {
            assert(srgb_decoded(44461, 27386, 65535)) by (nonlinear_arith);
            27386
        },
        174 => {
            assert(srgb_decoded(44718, 27739, 65535)) by (nonlinear_arith);
            27739
        },
        175 => {
            assert(srgb_decoded(44975, 28094, 65535)) by (nonlinear_arith);
            28094
        },
        176 => {
            assert(srgb_decoded(45232, 28452, 65535)) by (nonlinear_arith);
            28452
        },
        177 => {
            assert(srgb_decoded(45489, 28813, 65535)) by (nonlinear_arith);
            28813
        },
        178 => {
            assert(srgb_decoded(45746, 29176, 65535)) by (nonlinear_arith);
            29176
        },
        179 => {
            assert(srgb_decoded(46003, 29542, 65535)) by (nonlinear_arith);
            29542
        },
        180 => {
            assert(srgb_decoded(46260, 29911, 65535)) by (nonlinear_arith);
            29911
        },
        181 => {
            assert(srgb_decoded(46517, 30282, 65535)) by (nonlinear_arith);
            30282
        },
        182 => {
            assert(srgb_decoded(46774, 30656, 65535)) by (nonlinear_arith);
            30656
        },
        183 => {
            assert(srgb_decoded(47031, 31033, 65535)) by (nonlinear_arith);
            31033
        },
        184 => {
            assert(srgb_decoded(47288, 31412, 65535)) by (nonlinear_arith);
            31412
        },
        185 => {
            assert(srgb_decoded(47545, 31794, 65535)) by (nonlinear_arith);
            31794
        },
        186 => {
            assert(srgb_decoded(47802, 32179, 65535)) by (nonlinear_arith);
            32179
        },
        187 => {
            assert(srgb_decoded(48059, 32567, 65535)) by (nonlinear_arith);
            32567
        },
        188 => {
            assert(srgb_decoded(48316, 32957, 65535)) by (nonlinear_arith);
            32957
        },
        189 => {
            assert(srgb_decoded(48573, 33350, 65535)) by (nonlinear_arith);
            33350
        },
        190 => {
            assert(srgb_decoded(48830, 33745, 65535)) by (nonlinear_arith);
            33745
        },
        191 => {
            assert(srgb_decoded(49087, 34143, 65535)) by (nonlinear_arith);
            34143
        },
        192 => {
            assert(srgb_decoded(49344, 34544, 65535)) by (nonlinear_arith);
            34544
        },
        193 => {
            assert(srgb_decoded(49601, 34948, 65535)) by (nonlinear_arith);
            34948
        },
        194 => {
            assert(srgb_decoded(49858, 35355, 65535)) by (nonlinear_arith);
            35355
        },
        195 => {
            assert(srgb_decoded(50115, 35764, 65535)) by (nonlinear_arith);
            35764
        },
        196 => {
            assert(srgb_decoded(50372, 36176, 65535)) by (nonlinear_arith);
            36176
        },
        197 => {
            assert(srgb_decoded(50629, 36591, 65535)) by (nonlinear_arith);
            36591
        },
        198 => {
            assert(srgb_decoded(50886, 37008, 65535)) by (nonlinear_arith);
            37008
        },
        199 => {
            assert(srgb_decoded(51143, 37429, 65535)) by (nonlinear_arith);
            37429
        },
        200 => {
            assert(srgb_decoded(51400, 37852, 65535)) by (nonlinear_arith);
            37852
        },
        201 => {
            assert(srgb_decoded(51657, 38278, 65535)) by (nonlinear_arith);
            38278
        },
        202 => {
            assert(srgb_decoded(51914, 38706, 65535)) by (nonlinear_arith);
            38706
        },
        203 => {
            assert(srgb_decoded(52171, 39138, 65535)) by (nonlinear_arith);
            39138
        },
        204 => {
            assert(srgb_decoded(52428, 39572, 65535)) by (nonlinear_arith);
            39572
        },
        205 => {
            assert(srgb_decoded(52685, 40009, 65535)) by (nonlinear_arith);
            40009
        },
        206 => {
            assert(srgb_decoded(52942, 40449, 65535)) by (nonlinear_arith);
            40449
        },
        207 => {
            assert(srgb_decoded(53199, 40891, 65535)) by (nonlinear_arith);
            40891
        },
        208 => {
            assert(srgb_decoded(53456, 41337, 65535)) by (nonlinear_arith);
            41337
        },
        209 => {
            assert(srgb_decoded(53713, 41785, 65535)) by (nonlinear_arith);
            41785
        },
        210 => {
            assert(srgb_decoded(53970, 42236, 65535)) by (nonlinear_arith);
            42236
        },
        211 => {
            assert(srgb_decoded(54227, 42690, 65535)) by (nonlinear_arith);
            42690
        },
        212 => {
            assert(srgb_decoded(54484, 43147, 65535)) by (nonlinear_arith);
            43147
        },
        213 => {
            assert(srgb_decoded(54741, 43606, 65535)) by (nonlinear_arith);
            43606
        },
        214 => {
            assert(srgb_decoded(54998, 44069, 65535)) by (nonlinear_arith);
            44069
        },
        215 => {
            assert(srgb_decoded(55255, 44534, 65535)) by (nonlinear_arith);
            44534
        },
        216 => {
            assert(srgb_decoded(55512, 45002, 65535)) by (nonlinear_arith);
            45002
        },
        217 => {
            assert(srgb_decoded(55769, 45473, 65535)) by (nonlinear_arith);
            45473
        },
        218 => {
            assert(srgb_decoded(56026, 45947, 65535)) by (nonlinear_arith);
            45947
        },
        219 => {
            assert(srgb_decoded(56283, 46423, 65535)) by (nonlinear_arith);
            46423
        },
        220 => {
            assert(srgb_decoded(56540, 46903, 65535)) by (nonlinear_arith);
            46903
        },
        221 => {
            assert(srgb_decoded(56797, 47385, 65535)) by (nonlinear_arith);
            47385
        },
        222 => {
            assert(srgb_decoded(57054, 47871, 65535)) by (nonlinear_arith);
            47871
        },
        223 => {
            assert(srgb_decoded(57311, 48359, 65535)) by (nonlinear_arith);
            48359
        },
        224 => {
            assert(srgb_decoded(57568, 48850, 65535)) by (nonlinear_arith);
            48850
        },
        225 => {
            assert(srgb_decoded(57825, 49344, 65535)) by (nonlinear_arith);
            49344
        },
        226 => {
            assert(srgb_decoded(58082, 49841, 65535)) by (nonlinear_arith);
            49841
        },
        227 => {
            assert(srgb_decoded(58339, 50341, 65535)) by (nonlinear_arith);
            50341
        },
        228 => {
            assert(srgb_decoded(58596, 50844, 65535)) by (nonlinear_arith);
            50844
        },
        229 => {
            assert(srgb_decoded(58853, 51349, 65535)) by (nonlinear_arith);
            51349
        },
        230 => {
            assert(srgb_decoded(59110, 51858, 65535)) by (nonlinear_arith);
            51858
        },
        231 => {
            assert(srgb_decoded(59367, 52369, 65535)) by (nonlinear_arith);
            52369
        },
        232 => {
            assert(srgb_decoded(59624, 52884, 65535)) by (nonlinear_arith);
            52884
        },
        233 => {
            assert(srgb_decoded(59881, 53401, 65535)) by (nonlinear_arith);
            53401
        },
        234 => {
            assert(srgb_decoded(60138, 53921, 65535)) by (nonlinear_arith);
            53921
        },
        235 => {
            assert(srgb_decoded(60395, 54445, 65535)) by (nonlinear_arith);
            54445
        },
        236 => {
            assert(srgb_decoded(60652, 54971, 65535)) by (nonlinear_arith);
            54971
        },
        237 => {
            assert(srgb_decoded(60909, 55500, 65535)) by (nonlinear_arith);
            55500
        },
        238 => {
            assert(srgb_decoded(61166, 56032, 65535)) by (nonlinear_arith);
            56032
        },
        239 => {
            assert(srgb_decoded(61423, 56567, 65535)) by (nonlinear_arith);
            56567
        },
        240 => {
            assert(srgb_decoded(61680, 57105, 65535)) by (nonlinear_arith);
            57105
        },
        241 => {
            assert(srgb_decoded(61937, 57646, 65535)) by (nonlinear_arith);
            57646
        },
        242 => {
            assert(srgb_decoded(62194, 58190, 65535)) by (nonlinear_arith);
            58190
        },
        243 => {
            assert(srgb_decoded(62451, 58737, 65535)) by (nonlinear_arith);
            58737
        },
        244 => {
            assert(srgb_decoded(62708, 59287, 65535)) by (nonlinear_arith);
            59287
        },
        245 => {
            assert(srgb_decoded(62965, 59840, 65535)) by (nonlinear_arith);
            59840
        },
        246 => {
            assert(srgb_decoded(63222, 60396, 65535)) by (nonlinear_arith);
            60396
        },
        247 => {
            assert(srgb_decoded(63479, 60955, 65535)) by (nonlinear_arith);
            60955
        },
        248 => {
            assert(srgb_decoded(63736, 61517, 65535)) by (nonlinear_arith);
            61517
        },
        249 => {
            assert(srgb_decoded(63993, 62082, 65535)) by (nonlinear_arith);
            62082
        },
        250 => {
            assert(srgb_decoded(64250, 62650, 65535)) by (nonlinear_arith);
            62650
        },
        251 => {
            assert(srgb_decoded(64507, 63221, 65535)) by (nonlinear_arith);
            63221
        },
        252 => {
            assert(srgb_decoded(64764, 63795, 65535)) by (nonlinear_arith);
            63795
        },
        253 => {
            assert(srgb_decoded(65021, 64372, 65535)) by (nonlinear_arith);
            64372
        },
        254 => {
            assert(srgb_decoded(65278, 64952, 65535)) by (nonlinear_arith);
            64952
        },
        _ => {
            assert(srgb_decoded(65535, 65535, 65535)) by (nonlinear_arith);
            65535
        },
    }
}

} // verus!
