use vstd::prelude::*;

verus! {

/// The human-readable name of each known top-level entry key. A key that
/// is not in the catalogue has no name: its entry is skipped by the
/// framing layer.
pub open spec fn spec_key_name(key: u16) -> Option<Seq<char>> {
    if key == 1501 {
        Some("Encoding Default"@)
    } else if key == 1500 {
        Some("Encoding"@)
    } else if key == 1502 {
        Some("1502"@)
    } else if key == 518 {
        Some("518"@)
    } else if key == 257 {
        Some("257"@)
    } else if key == 1026 {
        Some("font_name"@)
    } else if key == 1503 {
        Some("Master Count"@)
    } else if key == 1517 {
        Some("weight_vector"@)
    } else if key == 1044 {
        Some("unique_id"@)
    } else if key == 1046 {
        Some("version"@)
    } else if key == 1038 {
        Some("notice"@)
    } else if key == 1025 {
        Some("full_name"@)
    } else if key == 1027 {
        Some("family_name"@)
    } else if key == 1024 {
        Some("pref_family_name"@)
    } else if key == 1056 {
        Some("menu_name"@)
    } else if key == 1092 {
        Some("apple_name"@)
    } else if key == 1028 {
        Some("weight"@)
    } else if key == 1065 {
        Some("width"@)
    } else if key == 1069 {
        Some("License"@)
    } else if key == 1070 {
        Some("License URL"@)
    } else if key == 1037 {
        Some("copyright"@)
    } else if key == 1061 {
        Some("trademark"@)
    } else if key == 1062 {
        Some("designer"@)
    } else if key == 1063 {
        Some("designer_url"@)
    } else if key == 1064 {
        Some("vendor_url"@)
    } else if key == 1039 {
        Some("source"@)
    } else if key == 1034 {
        Some("is_fixed_pitch"@)
    } else if key == 1048 {
        Some("weight_code"@)
    } else if key == 1029 {
        Some("italic_angle"@)
    } else if key == 1047 {
        Some("slant_angle"@)
    } else if key == 1030 {
        Some("underline_position"@)
    } else if key == 1031 {
        Some("underline_thickness"@)
    } else if key == 1054 {
        Some("ms_charset"@)
    } else if key == 1118 {
        Some("panose"@)
    } else if key == 1128 {
        Some("tt_version"@)
    } else if key == 1129 {
        Some("tt_u_id"@)
    } else if key == 1127 {
        Some("style_name"@)
    } else if key == 1137 {
        Some("pref_style_name"@)
    } else if key == 1139 {
        Some("mac_compatible"@)
    } else if key == 1140 {
        Some("1140"@)
    } else if key == 1121 {
        Some("vendor"@)
    } else if key == 1133 {
        Some("xuid"@)
    } else if key == 1134 {
        Some("xuid_num"@)
    } else if key == 1132 {
        Some("year"@)
    } else if key == 1130 {
        Some("version_major"@)
    } else if key == 1131 {
        Some("version_minor"@)
    } else if key == 1135 {
        Some("upm"@)
    } else if key == 1090 {
        Some("fond_id"@)
    } else if key == 1093 {
        Some("PostScript Hinting Options"@)
    } else if key == 1068 {
        Some("1068"@)
    } else if key == 1530 {
        Some("blue_values_num"@)
    } else if key == 1531 {
        Some("other_blues_num"@)
    } else if key == 1532 {
        Some("family_blues_num"@)
    } else if key == 1533 {
        Some("family_other_blues_num"@)
    } else if key == 1534 {
        Some("stem_snap_h_num"@)
    } else if key == 1535 {
        Some("stem_snap_v_num"@)
    } else if key == 1267 {
        Some("font_style"@)
    } else if key == 1057 {
        Some("pcl_id"@)
    } else if key == 1058 {
        Some("vp_id"@)
    } else if key == 1060 {
        Some("ms_id"@)
    } else if key == 1059 {
        Some("pcl_chars_set"@)
    } else if key == 1261 {
        Some("Binary cvt Table"@)
    } else if key == 1262 {
        Some("Binary prep Table"@)
    } else if key == 1263 {
        Some("Binary fpgm Table"@)
    } else if key == 1265 {
        Some("gasp"@)
    } else if key == 1264 {
        Some("ttinfo"@)
    } else if key == 1271 {
        Some("vdmx"@)
    } else if key == 1270 {
        Some("hhea_line_gap"@)
    } else if key == 1278 {
        Some("hhea_ascender"@)
    } else if key == 1279 {
        Some("hhea_descender"@)
    } else if key == 1266 {
        Some("TrueType Stem PPEMs 2 And 3"@)
    } else if key == 1268 {
        Some("TrueType Stem PPEMs"@)
    } else if key == 1524 {
        Some("TrueType Stem PPEMs 1"@)
    } else if key == 1269 {
        Some("TrueType Stems"@)
    } else if key == 1255 {
        Some("TrueType Zones"@)
    } else if key == 2021 {
        Some("unicoderanges"@)
    } else if key == 1272 {
        Some("stemsnaplimit"@)
    } else if key == 1274 {
        Some("zoneppm"@)
    } else if key == 1275 {
        Some("codeppm"@)
    } else if key == 1604 {
        Some("1604"@)
    } else if key == 2032 {
        Some("2032"@)
    } else if key == 1273 {
        Some("TrueType Zone Deltas"@)
    } else if key == 1138 {
        Some("fontnames"@)
    } else if key == 1141 {
        Some("Custom CMAPs"@)
    } else if key == 1136 {
        Some("PCLT Table"@)
    } else if key == 2022 {
        Some("Export PCLT Table"@)
    } else if key == 2025 {
        Some("note"@)
    } else if key == 2030 {
        Some("2030"@)
    } else if key == 2016 {
        Some("customdata"@)
    } else if key == 2024 {
        Some("OpenType Metrics Class Flags"@)
    } else if key == 2026 {
        Some("OpenType Kerning Class Flags"@)
    } else if key == 2014 {
        Some("TrueTypeTable"@)
    } else if key == 1276 {
        Some("features"@)
    } else if key == 1277 {
        Some("OpenType Class"@)
    } else if key == 513 {
        Some("513"@)
    } else if key == 271 {
        Some("271"@)
    } else if key == 1513 {
        Some("Axis Count"@)
    } else if key == 1514 {
        Some("Axis Name"@)
    } else if key == 1523 {
        Some("Anisotropic Interpolation Mappings"@)
    } else if key == 1515 {
        Some("Axis Mappings Count"@)
    } else if key == 1516 {
        Some("Axis Mappings"@)
    } else if key == 1504 {
        Some("Master Name"@)
    } else if key == 1505 {
        Some("Master Location"@)
    } else if key == 1247 {
        Some("Primary Instance Locations"@)
    } else if key == 1254 {
        Some("Primary Instances"@)
    } else if key == 1536 {
        Some("PostScript Info"@)
    } else if key == 527 {
        Some("527"@)
    } else if key == 1294 {
        Some("Global Guides"@)
    } else if key == 1296 {
        Some("Global Guide Properties"@)
    } else if key == 1295 {
        Some("Global Mask"@)
    } else if key == 1066 {
        Some("default_character"@)
    } else if key == 2001 {
        Some("Glyph"@)
    } else if key == 2008 {
        Some("Links"@)
    } else if key == 2007 {
        Some("image"@)
    } else if key == 2013 {
        Some("Glyph Bitmaps"@)
    } else if key == 2023 {
        Some("2023"@)
    } else if key == 2019 {
        Some("Glyph Sketch"@)
    } else if key == 2010 {
        Some("Glyph Hinting Options"@)
    } else if key == 2009 {
        Some("mask"@)
    } else if key == 2011 {
        Some("mask.metrics"@)
    } else if key == 2028 {
        Some("mask.metrics_mm"@)
    } else if key == 2027 {
        Some("Glyph Origin"@)
    } else if key == 1250 {
        Some("unicodes"@)
    } else if key == 2034 {
        Some("2034"@)
    } else if key == 1253 {
        Some("Glyph Unicode Non-BMP"@)
    } else if key == 2012 {
        Some("mark"@)
    } else if key == 2015 {
        Some("glyph.customdata"@)
    } else if key == 2017 {
        Some("glyph.note"@)
    } else if key == 2018 {
        Some("Glyph GDEF Data"@)
    } else if key == 2020 {
        Some("Glyph Anchors Supplemental"@)
    } else if key == 2029 {
        Some("Glyph Anchors MM"@)
    } else if key == 2031 {
        Some("Glyph Guide Properties"@)
    } else if key == 1743 {
        Some("OpenType Export Options"@)
    } else if key == 1744 {
        Some("Export Options"@)
    } else if key == 1742 {
        Some("Mapping Mode"@)
    } else if key == 1410 {
        Some("1410"@)
    } else if key == 5 {
        Some("EOF"@)
    } else {
        None
    }
}

/// The executable catalogue lookup.
pub fn key_name(key: u16) -> (r: Option<&'static str>)
    ensures
        r is Some <==> spec_key_name(key) is Some,
        r matches Some(s) ==> spec_key_name(key) == Some(s@),
{
    match key {
        1501 => Some("Encoding Default"),
        1500 => Some("Encoding"),
        1502 => Some("1502"),
        518 => Some("518"),
        257 => Some("257"),
        1026 => Some("font_name"),
        1503 => Some("Master Count"),
        1517 => Some("weight_vector"),
        1044 => Some("unique_id"),
        1046 => Some("version"),
        1038 => Some("notice"),
        1025 => Some("full_name"),
        1027 => Some("family_name"),
        1024 => Some("pref_family_name"),
        1056 => Some("menu_name"),
        1092 => Some("apple_name"),
        1028 => Some("weight"),
        1065 => Some("width"),
        1069 => Some("License"),
        1070 => Some("License URL"),
        1037 => Some("copyright"),
        1061 => Some("trademark"),
        1062 => Some("designer"),
        1063 => Some("designer_url"),
        1064 => Some("vendor_url"),
        1039 => Some("source"),
        1034 => Some("is_fixed_pitch"),
        1048 => Some("weight_code"),
        1029 => Some("italic_angle"),
        1047 => Some("slant_angle"),
        1030 => Some("underline_position"),
        1031 => Some("underline_thickness"),
        1054 => Some("ms_charset"),
        1118 => Some("panose"),
        1128 => Some("tt_version"),
        1129 => Some("tt_u_id"),
        1127 => Some("style_name"),
        1137 => Some("pref_style_name"),
        1139 => Some("mac_compatible"),
        1140 => Some("1140"),
        1121 => Some("vendor"),
        1133 => Some("xuid"),
        1134 => Some("xuid_num"),
        1132 => Some("year"),
        1130 => Some("version_major"),
        1131 => Some("version_minor"),
        1135 => Some("upm"),
        1090 => Some("fond_id"),
        1093 => Some("PostScript Hinting Options"),
        1068 => Some("1068"),
        1530 => Some("blue_values_num"),
        1531 => Some("other_blues_num"),
        1532 => Some("family_blues_num"),
        1533 => Some("family_other_blues_num"),
        1534 => Some("stem_snap_h_num"),
        1535 => Some("stem_snap_v_num"),
        1267 => Some("font_style"),
        1057 => Some("pcl_id"),
        1058 => Some("vp_id"),
        1060 => Some("ms_id"),
        1059 => Some("pcl_chars_set"),
        1261 => Some("Binary cvt Table"),
        1262 => Some("Binary prep Table"),
        1263 => Some("Binary fpgm Table"),
        1265 => Some("gasp"),
        1264 => Some("ttinfo"),
        1271 => Some("vdmx"),
        1270 => Some("hhea_line_gap"),
        1278 => Some("hhea_ascender"),
        1279 => Some("hhea_descender"),
        1266 => Some("TrueType Stem PPEMs 2 And 3"),
        1268 => Some("TrueType Stem PPEMs"),
        1524 => Some("TrueType Stem PPEMs 1"),
        1269 => Some("TrueType Stems"),
        1255 => Some("TrueType Zones"),
        2021 => Some("unicoderanges"),
        1272 => Some("stemsnaplimit"),
        1274 => Some("zoneppm"),
        1275 => Some("codeppm"),
        1604 => Some("1604"),
        2032 => Some("2032"),
        1273 => Some("TrueType Zone Deltas"),
        1138 => Some("fontnames"),
        1141 => Some("Custom CMAPs"),
        1136 => Some("PCLT Table"),
        2022 => Some("Export PCLT Table"),
        2025 => Some("note"),
        2030 => Some("2030"),
        2016 => Some("customdata"),
        2024 => Some("OpenType Metrics Class Flags"),
        2026 => Some("OpenType Kerning Class Flags"),
        2014 => Some("TrueTypeTable"),
        1276 => Some("features"),
        1277 => Some("OpenType Class"),
        513 => Some("513"),
        271 => Some("271"),
        1513 => Some("Axis Count"),
        1514 => Some("Axis Name"),
        1523 => Some("Anisotropic Interpolation Mappings"),
        1515 => Some("Axis Mappings Count"),
        1516 => Some("Axis Mappings"),
        1504 => Some("Master Name"),
        1505 => Some("Master Location"),
        1247 => Some("Primary Instance Locations"),
        1254 => Some("Primary Instances"),
        1536 => Some("PostScript Info"),
        527 => Some("527"),
        1294 => Some("Global Guides"),
        1296 => Some("Global Guide Properties"),
        1295 => Some("Global Mask"),
        1066 => Some("default_character"),
        2001 => Some("Glyph"),
        2008 => Some("Links"),
        2007 => Some("image"),
        2013 => Some("Glyph Bitmaps"),
        2023 => Some("2023"),
        2019 => Some("Glyph Sketch"),
        2010 => Some("Glyph Hinting Options"),
        2009 => Some("mask"),
        2011 => Some("mask.metrics"),
        2028 => Some("mask.metrics_mm"),
        2027 => Some("Glyph Origin"),
        1250 => Some("unicodes"),
        2034 => Some("2034"),
        1253 => Some("Glyph Unicode Non-BMP"),
        2012 => Some("mark"),
        2015 => Some("glyph.customdata"),
        2017 => Some("glyph.note"),
        2018 => Some("Glyph GDEF Data"),
        2020 => Some("Glyph Anchors Supplemental"),
        2029 => Some("Glyph Anchors MM"),
        2031 => Some("Glyph Guide Properties"),
        1743 => Some("OpenType Export Options"),
        1744 => Some("Export Options"),
        1742 => Some("Mapping Mode"),
        1410 => Some("1410"),
        5 => Some("EOF"),
        _ => None,
    }
}

} // verus!
