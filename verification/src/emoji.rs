//! The gitmoji reference sets and the emoji-unit operations: extraction of
//! emoji tokens from a header, merging of zero-width-joiner sequences into
//! single units, normalisation of variation selectors, and removal of the
//! matched units from the message.
use crate::outside::char_is_whitespace;
use crate::outside::emoji_tokens;
use crate::outside::find_emoji_tokens;
use crate::outside::is_whitespace_char;
use crate::outside::push_char;
use crate::text::append_str;
use crate::text::chars_of;
use crate::text::extend_vec;
use crate::text::string_of;
use crate::text::subvec;
use crate::text::trim_chars;
use crate::text::trim_of;
use crate::text::vec_eq_str;
use vstd::prelude::*;
use vstd::string::StrSliceExecFns;
use vstd::string::StringExecFns;

verus! {

// ---------------------------------------------------------------------------
// The reference sets
// ---------------------------------------------------------------------------

/// Whether `c` is one of the single-code-point gitmoji glyphs, stored with
/// variation selectors already stripped.
pub open spec fn is_single_unicode_emoji(c: char) -> bool {
    c == '🎨' ||
    c == '⚡' ||
    c == '🔥' ||
    c == '🐛' ||
    c == '🚑' ||
    c == '✨' ||
    c == '📝' ||
    c == '🚀' ||
    c == '💄' ||
    c == '🎉' ||
    c == '✅' ||
    c == '🔒' ||
    c == '🔐' ||
    c == '🔖' ||
    c == '🚨' ||
    c == '🚧' ||
    c == '💚' ||
    c == '⬇' ||
    c == '⬆' ||
    c == '📌' ||
    c == '👷' ||
    c == '📈' ||
    c == '♻' ||
    c == '➕' ||
    c == '➖' ||
    c == '🔧' ||
    c == '🔨' ||
    c == '🌐' ||
    c == '✏' ||
    c == '💩' ||
    c == '⏪' ||
    c == '🔀' ||
    c == '📦' ||
    c == '👽' ||
    c == '🚚' ||
    c == '📄' ||
    c == '💥' ||
    c == '🍱' ||
    c == '♿' ||
    c == '💡' ||
    c == '🍻' ||
    c == '💬' ||
    c == '🗃' ||
    c == '🔊' ||
    c == '🔇' ||
    c == '👥' ||
    c == '🚸' ||
    c == '🏗' ||
    c == '📱' ||
    c == '🤡' ||
    c == '🥚' ||
    c == '🙈' ||
    c == '📸' ||
    c == '⚗' ||
    c == '🔍' ||
    c == '🏷' ||
    c == '🌱' ||
    c == '🚩' ||
    c == '🥅' ||
    c == '💫' ||
    c == '🗑' ||
    c == '🛂' ||
    c == '🩹' ||
    c == '🧐' ||
    c == '⚰' ||
    c == '🧪' ||
    c == '👔' ||
    c == '🩺' ||
    c == '🧱' ||
    c == '💸' ||
    c == '🧵' ||
    c == '🦺' ||
    c == '✈'
}

/// The one multi-code-point gitmoji glyph: the technologist, three code
/// points joined by a zero-width joiner.
pub open spec fn technologist() -> Seq<char> {
    seq!['\u{1f9d1}', '\u{200d}', '\u{1f4bb}']
}

/// Whether a unit, with variation selectors stripped, is a known gitmoji
/// glyph.
pub open spec fn is_unicode_emoji(s: Seq<char>) -> bool {
    (s.len() == 1 && is_single_unicode_emoji(s[0])) || s == technologist()
}

fn single_unicode_emoji_char(c: char) -> (r: bool)
    ensures
        r == is_single_unicode_emoji(c),
{
    c == '🎨'
        || c == '⚡'
        || c == '🔥'
        || c == '🐛'
        || c == '🚑'
        || c == '✨'
        || c == '📝'
        || c == '🚀'
        || c == '💄'
        || c == '🎉'
        || c == '✅'
        || c == '🔒'
        || c == '🔐'
        || c == '🔖'
        || c == '🚨'
        || c == '🚧'
        || c == '💚'
        || c == '⬇'
        || c == '⬆'
        || c == '📌'
        || c == '👷'
        || c == '📈'
        || c == '♻'
        || c == '➕'
        || c == '➖'
        || c == '🔧'
        || c == '🔨'
        || c == '🌐'
        || c == '✏'
        || c == '💩'
        || c == '⏪'
        || c == '🔀'
        || c == '📦'
        || c == '👽'
        || c == '🚚'
        || c == '📄'
        || c == '💥'
        || c == '🍱'
        || c == '♿'
        || c == '💡'
        || c == '🍻'
        || c == '💬'
        || c == '🗃'
        || c == '🔊'
        || c == '🔇'
        || c == '👥'
        || c == '🚸'
        || c == '🏗'
        || c == '📱'
        || c == '🤡'
        || c == '🥚'
        || c == '🙈'
        || c == '📸'
        || c == '⚗'
        || c == '🔍'
        || c == '🏷'
        || c == '🌱'
        || c == '🚩'
        || c == '🥅'
        || c == '💫'
        || c == '🗑'
        || c == '🛂'
        || c == '🩹'
        || c == '🧐'
        || c == '⚰'
        || c == '🧪'
        || c == '👔'
        || c == '🩺'
        || c == '🧱'
        || c == '💸'
        || c == '🧵'
        || c == '🦺'
        || c == '✈'
}

/// Decides membership in the Unicode gitmoji set.
pub fn unicode_emoji_contains(e: &Vec<char>) -> (r: bool)
    ensures
        r == is_unicode_emoji(e@),
{
    if e.len() == 1 {
        single_unicode_emoji_char(e[0])
    } else if e.len() == 3 {
        let r = e[0] == '\u{1f9d1}' && e[1] == '\u{200d}' && e[2] == '\u{1f4bb}';
        proof {
            if r {
                assert(e@ =~= technologist());
            } else {
                assert(e@ != technologist());
            }
        }
        r
    } else {
        false
    }
}

/// Whether a token is one of the `:shortcode:` names of the gitmoji set.
pub open spec fn is_string_emoji(s: Seq<char>) -> bool {
    s == ":art:"@
        || s == ":zap:"@
        || s == ":fire:"@
        || s == ":bug:"@
        || s == ":ambulance:"@
        || s == ":sparkles:"@
        || s == ":memo:"@
        || s == ":rocket:"@
        || s == ":lipstick:"@
        || s == ":tada:"@
        || s == ":white_check_mark:"@
        || s == ":lock:"@
        || s == ":closed_lock_with_key:"@
        || s == ":bookmark:"@
        || s == ":rotating_light:"@
        || s == ":construction:"@
        || s == ":green_heart:"@
        || s == ":arrow_down:"@
        || s == ":arrow_up:"@
        || s == ":pushpin:"@
        || s == ":construction_worker:"@
        || s == ":chart_with_upwards_trend:"@
        || s == ":recycle:"@
        || s == ":heavy_plus_sign:"@
        || s == ":heavy_minus_sign:"@
        || s == ":wrench:"@
        || s == ":hammer:"@
        || s == ":globe_with_meridians:"@
        || s == ":pencil2:"@
        || s == ":poop:"@
        || s == ":rewind:"@
        || s == ":twisted_rightwards_arrows:"@
        || s == ":package:"@
        || s == ":alien:"@
        || s == ":truck:"@
        || s == ":page_facing_up:"@
        || s == ":boom:"@
        || s == ":bento:"@
        || s == ":wheelchair:"@
        || s == ":bulb:"@
        || s == ":beers:"@
        || s == ":speech_balloon:"@
        || s == ":card_file_box:"@
        || s == ":loud_sound:"@
        || s == ":mute:"@
        || s == ":busts_in_silhouette:"@
        || s == ":children_crossing:"@
        || s == ":building_construction:"@
        || s == ":iphone:"@
        || s == ":clown_face:"@
        || s == ":egg:"@
        || s == ":see_no_evil:"@
        || s == ":camera_flash:"@
        || s == ":alembic:"@
        || s == ":mag:"@
        || s == ":label:"@
        || s == ":seedling:"@
        || s == ":triangular_flag_on_post:"@
        || s == ":goal_net:"@
        || s == ":dizzy:"@
        || s == ":wastebasket:"@
        || s == ":passport_control:"@
        || s == ":adhesive_bandage:"@
        || s == ":monocle_face:"@
        || s == ":coffin:"@
        || s == ":test_tube:"@
        || s == ":necktie:"@
        || s == ":stethoscope:"@
        || s == ":bricks:"@
        || s == ":technologist:"@
        || s == ":money_with_wings:"@
        || s == ":thread:"@
        || s == ":safety_vest:"@
        || s == ":airplane:"@
}

/// Decides membership in the shortcode gitmoji set.
pub fn string_emoji_contains(e: &Vec<char>) -> (r: bool)
    ensures
        r == is_string_emoji(e@),
{
    if vec_eq_str(e, ":art:") {
        true
    } else if vec_eq_str(e, ":zap:") {
        true
    } else if vec_eq_str(e, ":fire:") {
        true
    } else if vec_eq_str(e, ":bug:") {
        true
    } else if vec_eq_str(e, ":ambulance:") {
        true
    } else if vec_eq_str(e, ":sparkles:") {
        true
    } else if vec_eq_str(e, ":memo:") {
        true
    } else if vec_eq_str(e, ":rocket:") {
        true
    } else if vec_eq_str(e, ":lipstick:") {
        true
    } else if vec_eq_str(e, ":tada:") {
        true
    } else if vec_eq_str(e, ":white_check_mark:") {
        true
    } else if vec_eq_str(e, ":lock:") {
        true
    } else if vec_eq_str(e, ":closed_lock_with_key:") {
        true
    } else if vec_eq_str(e, ":bookmark:") {
        true
    } else if vec_eq_str(e, ":rotating_light:") {
        true
    } else if vec_eq_str(e, ":construction:") {
        true
    } else if vec_eq_str(e, ":green_heart:") {
        true
    } else if vec_eq_str(e, ":arrow_down:") {
        true
    } else if vec_eq_str(e, ":arrow_up:") {
        true
    } else if vec_eq_str(e, ":pushpin:") {
        true
    } else if vec_eq_str(e, ":construction_worker:") {
        true
    } else if vec_eq_str(e, ":chart_with_upwards_trend:") {
        true
    } else if vec_eq_str(e, ":recycle:") {
        true
    } else if vec_eq_str(e, ":heavy_plus_sign:") {
        true
    } else if vec_eq_str(e, ":heavy_minus_sign:") {
        true
    } else if vec_eq_str(e, ":wrench:") {
        true
    } else if vec_eq_str(e, ":hammer:") {
        true
    } else if vec_eq_str(e, ":globe_with_meridians:") {
        true
    } else if vec_eq_str(e, ":pencil2:") {
        true
    } else if vec_eq_str(e, ":poop:") {
        true
    } else if vec_eq_str(e, ":rewind:") {
        true
    } else if vec_eq_str(e, ":twisted_rightwards_arrows:") {
        true
    } else if vec_eq_str(e, ":package:") {
        true
    } else if vec_eq_str(e, ":alien:") {
        true
    } else if vec_eq_str(e, ":truck:") {
        true
    } else if vec_eq_str(e, ":page_facing_up:") {
        true
    } else if vec_eq_str(e, ":boom:") {
        true
    } else if vec_eq_str(e, ":bento:") {
        true
    } else if vec_eq_str(e, ":wheelchair:") {
        true
    } else if vec_eq_str(e, ":bulb:") {
        true
    } else if vec_eq_str(e, ":beers:") {
        true
    } else if vec_eq_str(e, ":speech_balloon:") {
        true
    } else if vec_eq_str(e, ":card_file_box:") {
        true
    } else if vec_eq_str(e, ":loud_sound:") {
        true
    } else if vec_eq_str(e, ":mute:") {
        true
    } else if vec_eq_str(e, ":busts_in_silhouette:") {
        true
    } else if vec_eq_str(e, ":children_crossing:") {
        true
    } else if vec_eq_str(e, ":building_construction:") {
        true
    } else if vec_eq_str(e, ":iphone:") {
        true
    } else if vec_eq_str(e, ":clown_face:") {
        true
    } else if vec_eq_str(e, ":egg:") {
        true
    } else if vec_eq_str(e, ":see_no_evil:") {
        true
    } else if vec_eq_str(e, ":camera_flash:") {
        true
    } else if vec_eq_str(e, ":alembic:") {
        true
    } else if vec_eq_str(e, ":mag:") {
        true
    } else if vec_eq_str(e, ":label:") {
        true
    } else if vec_eq_str(e, ":seedling:") {
        true
    } else if vec_eq_str(e, ":triangular_flag_on_post:") {
        true
    } else if vec_eq_str(e, ":goal_net:") {
        true
    } else if vec_eq_str(e, ":dizzy:") {
        true
    } else if vec_eq_str(e, ":wastebasket:") {
        true
    } else if vec_eq_str(e, ":passport_control:") {
        true
    } else if vec_eq_str(e, ":adhesive_bandage:") {
        true
    } else if vec_eq_str(e, ":monocle_face:") {
        true
    } else if vec_eq_str(e, ":coffin:") {
        true
    } else if vec_eq_str(e, ":test_tube:") {
        true
    } else if vec_eq_str(e, ":necktie:") {
        true
    } else if vec_eq_str(e, ":stethoscope:") {
        true
    } else if vec_eq_str(e, ":bricks:") {
        true
    } else if vec_eq_str(e, ":technologist:") {
        true
    } else if vec_eq_str(e, ":money_with_wings:") {
        true
    } else if vec_eq_str(e, ":thread:") {
        true
    } else if vec_eq_str(e, ":safety_vest:") {
        true
    } else if vec_eq_str(e, ":airplane:") {
        true
    } else {
        false
    }
}

// ---------------------------------------------------------------------------
// The reference sets as ordered tables
// ---------------------------------------------------------------------------

/// The single-glyph gitmojis, in the order the reference table lists them.
pub open spec fn single_unicode_emoji_chars() -> Seq<char> {
    seq![
        '🎨', '⚡', '🔥', '🐛', '🚑', '✨', '📝', '🚀', '💄', '🎉', '✅', '🔒', '🔐', '🔖', '🚨', '🚧', '💚', '⬇', '⬆', '📌', '👷', '📈', '♻', '➕', '➖', '🔧', '🔨', '🌐', '✏', '💩', '⏪', '🔀', '📦', '👽', '🚚', '📄', '💥', '🍱', '♿', '💡', '🍻', '💬', '🗃', '🔊', '🔇', '👥', '🚸', '🏗', '📱', '🤡', '🥚', '🙈', '📸', '⚗', '🔍', '🏷', '🌱', '🚩', '🥅', '💫', '🗑', '🛂', '🩹', '🧐', '⚰', '🧪', '👔', '🩺', '🧱', '💸', '🧵', '🦺', '✈',
    ]
}

/// The Unicode gitmoji units, in table order: every single glyph as a
/// one-character unit, then the technologist.
pub open spec fn unicode_emoji_units() -> Seq<Seq<char>> {
    single_unicode_emoji_chars().map_values(|c: char| seq![c]).push(technologist())
}

/// The gitmoji shortcodes, in table order.
pub open spec fn string_emoji_units() -> Seq<Seq<char>> {
    seq![
        ":art:"@,
        ":zap:"@,
        ":fire:"@,
        ":bug:"@,
        ":ambulance:"@,
        ":sparkles:"@,
        ":memo:"@,
        ":rocket:"@,
        ":lipstick:"@,
        ":tada:"@,
        ":white_check_mark:"@,
        ":lock:"@,
        ":closed_lock_with_key:"@,
        ":bookmark:"@,
        ":rotating_light:"@,
        ":construction:"@,
        ":green_heart:"@,
        ":arrow_down:"@,
        ":arrow_up:"@,
        ":pushpin:"@,
        ":construction_worker:"@,
        ":chart_with_upwards_trend:"@,
        ":recycle:"@,
        ":heavy_plus_sign:"@,
        ":heavy_minus_sign:"@,
        ":wrench:"@,
        ":hammer:"@,
        ":globe_with_meridians:"@,
        ":pencil2:"@,
        ":poop:"@,
        ":rewind:"@,
        ":twisted_rightwards_arrows:"@,
        ":package:"@,
        ":alien:"@,
        ":truck:"@,
        ":page_facing_up:"@,
        ":boom:"@,
        ":bento:"@,
        ":wheelchair:"@,
        ":bulb:"@,
        ":beers:"@,
        ":speech_balloon:"@,
        ":card_file_box:"@,
        ":loud_sound:"@,
        ":mute:"@,
        ":busts_in_silhouette:"@,
        ":children_crossing:"@,
        ":building_construction:"@,
        ":iphone:"@,
        ":clown_face:"@,
        ":egg:"@,
        ":see_no_evil:"@,
        ":camera_flash:"@,
        ":alembic:"@,
        ":mag:"@,
        ":label:"@,
        ":seedling:"@,
        ":triangular_flag_on_post:"@,
        ":goal_net:"@,
        ":dizzy:"@,
        ":wastebasket:"@,
        ":passport_control:"@,
        ":adhesive_bandage:"@,
        ":monocle_face:"@,
        ":coffin:"@,
        ":test_tube:"@,
        ":necktie:"@,
        ":stethoscope:"@,
        ":bricks:"@,
        ":technologist:"@,
        ":money_with_wings:"@,
        ":thread:"@,
        ":safety_vest:"@,
        ":airplane:"@,
    ]
}

fn push_single_glyphs_0(v: &mut Vec<char>)
    requires
        old(v)@ == single_unicode_emoji_chars().take(0),
    ensures
        final(v)@ == single_unicode_emoji_chars().take(15),
{
    v.push('🎨');
    v.push('⚡');
    v.push('🔥');
    v.push('🐛');
    v.push('🚑');
    v.push('✨');
    v.push('📝');
    v.push('🚀');
    v.push('💄');
    v.push('🎉');
    v.push('✅');
    v.push('🔒');
    v.push('🔐');
    v.push('🔖');
    v.push('🚨');
    proof {
        assert(v@ =~= single_unicode_emoji_chars().take(15));
    }
}

fn push_single_glyphs_1(v: &mut Vec<char>)
    requires
        old(v)@ == single_unicode_emoji_chars().take(15),
    ensures
        final(v)@ == single_unicode_emoji_chars().take(30),
{
    v.push('🚧');
    v.push('💚');
    v.push('⬇');
    v.push('⬆');
    v.push('📌');
    v.push('👷');
    v.push('📈');
    v.push('♻');
    v.push('➕');
    v.push('➖');
    v.push('🔧');
    v.push('🔨');
    v.push('🌐');
    v.push('✏');
    v.push('💩');
    proof {
        assert(v@ =~= single_unicode_emoji_chars().take(30));
    }
}

fn push_single_glyphs_2(v: &mut Vec<char>)
    requires
        old(v)@ == single_unicode_emoji_chars().take(30),
    ensures
        final(v)@ == single_unicode_emoji_chars().take(45),
{
    v.push('⏪');
    v.push('🔀');
    v.push('📦');
    v.push('👽');
    v.push('🚚');
    v.push('📄');
    v.push('💥');
    v.push('🍱');
    v.push('♿');
    v.push('💡');
    v.push('🍻');
    v.push('💬');
    v.push('🗃');
    v.push('🔊');
    v.push('🔇');
    proof {
        assert(v@ =~= single_unicode_emoji_chars().take(45));
    }
}

fn push_single_glyphs_3(v: &mut Vec<char>)
    requires
        old(v)@ == single_unicode_emoji_chars().take(45),
    ensures
        final(v)@ == single_unicode_emoji_chars().take(60),
{
    v.push('👥');
    v.push('🚸');
    v.push('🏗');
    v.push('📱');
    v.push('🤡');
    v.push('🥚');
    v.push('🙈');
    v.push('📸');
    v.push('⚗');
    v.push('🔍');
    v.push('🏷');
    v.push('🌱');
    v.push('🚩');
    v.push('🥅');
    v.push('💫');
    proof {
        assert(v@ =~= single_unicode_emoji_chars().take(60));
    }
}

fn push_single_glyphs_4(v: &mut Vec<char>)
    requires
        old(v)@ == single_unicode_emoji_chars().take(60),
    ensures
        final(v)@ == single_unicode_emoji_chars().take(73),
{
    v.push('🗑');
    v.push('🛂');
    v.push('🩹');
    v.push('🧐');
    v.push('⚰');
    v.push('🧪');
    v.push('👔');
    v.push('🩺');
    v.push('🧱');
    v.push('💸');
    v.push('🧵');
    v.push('🦺');
    v.push('✈');
    proof {
        assert(v@ =~= single_unicode_emoji_chars().take(73));
    }
}

fn single_emoji_char_list() -> (v: Vec<char>)
    ensures
        v@ == single_unicode_emoji_chars(),
        v@.len() == 73,
{
    let mut v: Vec<char> = Vec::new();
    proof {
        assert(v@ =~= single_unicode_emoji_chars().take(0));
    }
    push_single_glyphs_0(&mut v);
    push_single_glyphs_1(&mut v);
    push_single_glyphs_2(&mut v);
    push_single_glyphs_3(&mut v);
    push_single_glyphs_4(&mut v);
    proof {
        assert(single_unicode_emoji_chars().len() == 73);
        assert(v@ =~= single_unicode_emoji_chars());
    }
    v
}

/// The known Unicode gitmoji glyphs, each as its own string, in the order
/// of the reference table.
pub fn unicode_emojis() -> (r: Vec<String>)
    ensures
        r.deep_view() == unicode_emoji_units(),
        r@.len() == 74,
{
    let ghost units = unicode_emoji_units();
    let chars = single_emoji_char_list();
    let mut r: Vec<String> = Vec::new();
    proof {
        assert(r.deep_view() =~~= units.take(0));
    }
    let mut k: usize = 0;
    while k < chars.len()
        invariant
            k <= 73,
            chars@ == single_unicode_emoji_chars(),
            chars@.len() == 73,
            units == unicode_emoji_units(),
            r@.len() == k,
            r.deep_view() == units.take(k as int),
        decreases chars@.len() - k,
    {
        let mut s = String::new();
        push_char(&mut s, chars[k]);
        proof {
            assert(s@ =~= seq![chars@[k as int]]);
        }
        let ghost prevd = r.deep_view();
        r.push(s);
        k = k + 1;
        proof {
            assert(units[k as int - 1] == seq![single_unicode_emoji_chars()[k as int - 1]]);
            assert(r.deep_view() =~~= prevd + seq![units[k as int - 1]]);
            assert(units.take(k as int) =~= units.take(k as int - 1) + seq![units[k as int
                - 1]]);
            assert(r.deep_view() =~= units.take(k as int));
        }
    }
    let mut t = String::new();
    push_char(&mut t, '\u{1f9d1}');
    push_char(&mut t, '\u{200d}');
    push_char(&mut t, '\u{1f4bb}');
    proof {
        assert(t@ =~= technologist());
    }
    let ghost prevd = r.deep_view();
    r.push(t);
    proof {
        assert(units.len() == 74);
        assert(units[73] == technologist());
        assert(r.deep_view() =~~= prevd + seq![units[73]]);
        assert(units.take(73) + seq![units[73]] =~= units);
        assert(r.deep_view() =~= units);
    }
    r
}

fn push_shortcodes_0(r: &mut Vec<String>)
    requires
        old(r).deep_view() == string_emoji_units().take(0),
        old(r)@.len() == 0,
    ensures
        final(r).deep_view() == string_emoji_units().take(15),
        final(r)@.len() == 15,
{
    r.push(String::from_str(":art:"));
    r.push(String::from_str(":zap:"));
    r.push(String::from_str(":fire:"));
    r.push(String::from_str(":bug:"));
    r.push(String::from_str(":ambulance:"));
    r.push(String::from_str(":sparkles:"));
    r.push(String::from_str(":memo:"));
    r.push(String::from_str(":rocket:"));
    r.push(String::from_str(":lipstick:"));
    r.push(String::from_str(":tada:"));
    r.push(String::from_str(":white_check_mark:"));
    r.push(String::from_str(":lock:"));
    r.push(String::from_str(":closed_lock_with_key:"));
    r.push(String::from_str(":bookmark:"));
    r.push(String::from_str(":rotating_light:"));
    proof {
        assert(r.deep_view() =~~= string_emoji_units().take(15));
    }
}

fn push_shortcodes_1(r: &mut Vec<String>)
    requires
        old(r).deep_view() == string_emoji_units().take(15),
        old(r)@.len() == 15,
    ensures
        final(r).deep_view() == string_emoji_units().take(30),
        final(r)@.len() == 30,
{
    r.push(String::from_str(":construction:"));
    r.push(String::from_str(":green_heart:"));
    r.push(String::from_str(":arrow_down:"));
    r.push(String::from_str(":arrow_up:"));
    r.push(String::from_str(":pushpin:"));
    r.push(String::from_str(":construction_worker:"));
    r.push(String::from_str(":chart_with_upwards_trend:"));
    r.push(String::from_str(":recycle:"));
    r.push(String::from_str(":heavy_plus_sign:"));
    r.push(String::from_str(":heavy_minus_sign:"));
    r.push(String::from_str(":wrench:"));
    r.push(String::from_str(":hammer:"));
    r.push(String::from_str(":globe_with_meridians:"));
    r.push(String::from_str(":pencil2:"));
    r.push(String::from_str(":poop:"));
    proof {
        assert(r.deep_view() =~~= string_emoji_units().take(30));
    }
}

fn push_shortcodes_2(r: &mut Vec<String>)
    requires
        old(r).deep_view() == string_emoji_units().take(30),
        old(r)@.len() == 30,
    ensures
        final(r).deep_view() == string_emoji_units().take(45),
        final(r)@.len() == 45,
{
    r.push(String::from_str(":rewind:"));
    r.push(String::from_str(":twisted_rightwards_arrows:"));
    r.push(String::from_str(":package:"));
    r.push(String::from_str(":alien:"));
    r.push(String::from_str(":truck:"));
    r.push(String::from_str(":page_facing_up:"));
    r.push(String::from_str(":boom:"));
    r.push(String::from_str(":bento:"));
    r.push(String::from_str(":wheelchair:"));
    r.push(String::from_str(":bulb:"));
    r.push(String::from_str(":beers:"));
    r.push(String::from_str(":speech_balloon:"));
    r.push(String::from_str(":card_file_box:"));
    r.push(String::from_str(":loud_sound:"));
    r.push(String::from_str(":mute:"));
    proof {
        assert(r.deep_view() =~~= string_emoji_units().take(45));
    }
}

fn push_shortcodes_3(r: &mut Vec<String>)
    requires
        old(r).deep_view() == string_emoji_units().take(45),
        old(r)@.len() == 45,
    ensures
        final(r).deep_view() == string_emoji_units().take(60),
        final(r)@.len() == 60,
{
    r.push(String::from_str(":busts_in_silhouette:"));
    r.push(String::from_str(":children_crossing:"));
    r.push(String::from_str(":building_construction:"));
    r.push(String::from_str(":iphone:"));
    r.push(String::from_str(":clown_face:"));
    r.push(String::from_str(":egg:"));
    r.push(String::from_str(":see_no_evil:"));
    r.push(String::from_str(":camera_flash:"));
    r.push(String::from_str(":alembic:"));
    r.push(String::from_str(":mag:"));
    r.push(String::from_str(":label:"));
    r.push(String::from_str(":seedling:"));
    r.push(String::from_str(":triangular_flag_on_post:"));
    r.push(String::from_str(":goal_net:"));
    r.push(String::from_str(":dizzy:"));
    proof {
        assert(r.deep_view() =~~= string_emoji_units().take(60));
    }
}

fn push_shortcodes_4(r: &mut Vec<String>)
    requires
        old(r).deep_view() == string_emoji_units().take(60),
        old(r)@.len() == 60,
    ensures
        final(r).deep_view() == string_emoji_units().take(74),
        final(r)@.len() == 74,
{
    r.push(String::from_str(":wastebasket:"));
    r.push(String::from_str(":passport_control:"));
    r.push(String::from_str(":adhesive_bandage:"));
    r.push(String::from_str(":monocle_face:"));
    r.push(String::from_str(":coffin:"));
    r.push(String::from_str(":test_tube:"));
    r.push(String::from_str(":necktie:"));
    r.push(String::from_str(":stethoscope:"));
    r.push(String::from_str(":bricks:"));
    r.push(String::from_str(":technologist:"));
    r.push(String::from_str(":money_with_wings:"));
    r.push(String::from_str(":thread:"));
    r.push(String::from_str(":safety_vest:"));
    r.push(String::from_str(":airplane:"));
    proof {
        assert(r.deep_view() =~~= string_emoji_units().take(74));
    }
}

/// The known gitmoji shortcodes, each as its own string, in the order of
/// the reference table.
pub fn string_emojis() -> (r: Vec<String>)
    ensures
        r.deep_view() == string_emoji_units(),
        r@.len() == 74,
{
    let mut r: Vec<String> = Vec::new();
    proof {
        assert(r.deep_view() =~~= string_emoji_units().take(0));
    }
    push_shortcodes_0(&mut r);
    push_shortcodes_1(&mut r);
    push_shortcodes_2(&mut r);
    push_shortcodes_3(&mut r);
    push_shortcodes_4(&mut r);
    proof {
        assert(string_emoji_units().len() == 74);
        assert(r.deep_view() =~= string_emoji_units());
    }
    r
}

// ---------------------------------------------------------------------------
// Zero-width-joiner merging
// ---------------------------------------------------------------------------

/// The zero-width joiner as a one-character unit.
pub open spec fn zwj_seq() -> Seq<char> {
    seq!['\u{200d}']
}

/// One pass over the token list from index `i` with the units built so far
/// in `acc`: a zero-width-joiner token glues its neighbours into one unit;
/// one with no unit before it or no token after it is dropped.
pub open spec fn combine_zwj_loop(toks: Seq<Seq<char>>, i: int, acc: Seq<Seq<char>>) -> Seq<
    Seq<char>,
>
    decreases toks.len() - i,
{
    if !(0 <= i < toks.len()) {
        acc
    } else if toks[i] == zwj_seq() {
        if acc.len() > 0 && i + 1 < toks.len() {
            combine_zwj_loop(toks, i + 2, acc.drop_last().push(acc.last() + zwj_seq() + toks[i + 1]))
        } else {
            combine_zwj_loop(toks, i + 1, acc)
        }
    } else {
        combine_zwj_loop(toks, i + 1, acc.push(toks[i]))
    }
}

/// The token list with zero-width-joiner sequences merged into single units.
pub open spec fn combine_zwj(toks: Seq<Seq<char>>) -> Seq<Seq<char>> {
    combine_zwj_loop(toks, 0, seq![])
}

/// The emoji units of a header: the raw tokens, merged.
pub open spec fn extracted_emojis(title: Seq<char>) -> Seq<Seq<char>> {
    combine_zwj(emoji_tokens(title))
}

fn is_zwj_token(s: &String) -> (r: bool)
    ensures
        r == (s@ == zwj_seq()),
{
    let n = s.as_str().unicode_len();
    if n == 1 && s.as_str().get_char(0) == '\u{200d}' {
        proof {
            assert(s@ =~= zwj_seq());
        }
        true
    } else {
        proof {
            if s@ == zwj_seq() {
                assert(s@.len() == 1 && s@[0] == '\u{200d}');
            }
        }
        false
    }
}

/// Glues two units and the joiner between them into one unit.
pub fn combine_emojis(previous_emoji: String, zwj: String, next_emoji: String) -> (r: String)
    ensures
        r@ == previous_emoji@ + zwj@ + next_emoji@,
{
    let mut v: Vec<char> = Vec::new();
    append_str(&mut v, previous_emoji.as_str());
    append_str(&mut v, zwj.as_str());
    append_str(&mut v, next_emoji.as_str());
    string_of(&v)
}

/// Handles one zero-width-joiner token: when a unit was built before it and
/// a token follows it, the two are glued into one unit and the follower is
/// consumed; otherwise nothing changes and the joiner is dropped.
pub fn handle_zwj(combined_emojis: &mut Vec<String>, next_emoji: Option<&String>) -> (consumed:
    bool)
    ensures
        consumed == (old(combined_emojis)@.len() > 0 && next_emoji is Some),
        !consumed ==> final(combined_emojis)@ == old(combined_emojis)@,
        consumed ==> final(combined_emojis)@.len() == old(combined_emojis)@.len(),
        consumed ==> forall|t: int|
            0 <= t < final(combined_emojis)@.len() - 1 ==> final(combined_emojis)@[t] == old(
                combined_emojis,
            )@[t],
        consumed ==> final(combined_emojis)@.last()@ == old(combined_emojis)@.last()@ + zwj_seq()
            + (next_emoji->Some_0)@,
{
    if combined_emojis.len() > 0 {
        match next_emoji {
            Some(next) => {
                let previous_emoji = combined_emojis.pop().unwrap();
                let mut zwj = String::new();
                push_char(&mut zwj, '\u{200d}');
                proof {
                    assert(zwj@ =~= zwj_seq());
                }
                let combined = combine_emojis(previous_emoji, zwj, next.clone());
                combined_emojis.push(combined);
                true
            },
            None => false,
        }
    } else {
        false
    }
}

/// Merges zero-width-joiner sequences in a token list into single units, so
/// a glyph composed of several code points counts as one emoji.
pub fn combine_adjacent_emojis(emojis: Vec<String>) -> (r: Vec<String>)
    ensures
        r.deep_view() == combine_zwj(emojis.deep_view()),
{
    let ghost dv = emojis.deep_view();
    let mut combined_emojis: Vec<String> = Vec::new();
    proof {
        assert(combined_emojis.deep_view() =~~= Seq::<Seq<char>>::empty());
    }
    let mut i: usize = 0;
    while i < emojis.len()
        invariant
            i <= emojis@.len(),
            combine_zwj(dv) == combine_zwj_loop(dv, i as int, combined_emojis.deep_view()),
        decreases emojis@.len() - i,
    {
        let ghost acc0 = combined_emojis.deep_view();
        proof {
            assert(dv[i as int] == emojis@[i as int]@);
        }
        if is_zwj_token(&emojis[i]) {
            let next: Option<&String> = if i + 1 < emojis.len() {
                Some(&emojis[i + 1])
            } else {
                None
            };
            proof {
                if i as int + 1 < dv.len() {
                    assert(dv[i as int + 1] == emojis@[i as int + 1]@);
                }
            }
            let consumed = handle_zwj(&mut combined_emojis, next);
            if consumed {
                proof {
                    assert(combined_emojis.deep_view() =~~= acc0.drop_last().push(
                        acc0.last() + zwj_seq() + dv[i as int + 1],
                    ));
                }
                i = i + 2;
            } else {
                proof {
                    assert(combined_emojis.deep_view() =~~= acc0);
                }
                i = i + 1;
            }
        } else {
            let e = emojis[i].clone();
            combined_emojis.push(e);
            proof {
                assert(combined_emojis.deep_view() =~~= acc0.push(dv[i as int]));
            }
            i = i + 1;
        }
    }
    combined_emojis
}

/// Finds all emoji tokens of a header and merges joined sequences, so that
/// each user-perceived emoji counts once.
pub fn extract_gitmoji(title: &str) -> (r: Vec<String>)
    ensures
        r.deep_view() == extracted_emojis(title@),
{
    let emojis = find_emoji_tokens(title);
    combine_adjacent_emojis(emojis)
}

/// The emoji units of a header, or nothing when it has none.
pub fn parse_gitmoji(commit_title: &str) -> (r: Option<Vec<String>>)
    ensures
        (match r {
            Some(v) => extracted_emojis(commit_title@).len() > 0 && v.deep_view()
                == extracted_emojis(commit_title@),
            None => extracted_emojis(commit_title@).len() == 0,
        }),
{
    let emojis = extract_gitmoji(commit_title);
    if emojis.len() == 0 {
        proof {
            assert(extracted_emojis(commit_title@).len() == 0);
        }
        return None;
    }
    Some(emojis)
}

// ---------------------------------------------------------------------------
// Normalisation
// ---------------------------------------------------------------------------

/// The unit with every variation selector removed, for set membership.
pub open spec fn strip_vs(s: Seq<char>) -> Seq<char>
    decreases s.len(),
{
    if s.len() == 0 {
        seq![]
    } else if s.last() == '\u{fe0f}' {
        strip_vs(s.drop_last())
    } else {
        strip_vs(s.drop_last()).push(s.last())
    }
}

/// Removes variation selectors from an emoji, so that presentation variants
/// of one glyph compare equal.
pub fn normalise_emoji(emoji: &str) -> (r: String)
    ensures
        r@ == strip_vs(emoji@),
{
    let cs = chars_of(emoji);
    let mut v: Vec<char> = Vec::new();
    let mut i: usize = 0;
    while i < cs.len()
        invariant
            i <= cs@.len(),
            cs@ == emoji@,
            v@ == strip_vs(emoji@.take(i as int)),
        decreases cs@.len() - i,
    {
        if cs[i] != '\u{fe0f}' {
            v.push(cs[i]);
        }
        i = i + 1;
        proof {
            assert(emoji@.take(i as int).drop_last() =~= emoji@.take(i as int - 1));
        }
    }
    proof {
        assert(emoji@.take(emoji@.len() as int) =~= emoji@);
    }
    string_of(&v)
}

// ---------------------------------------------------------------------------
// Removal of matched units
// ---------------------------------------------------------------------------

/// Whether the characters of `pat` stand in `s` at position `i`.
pub open spec fn lit_at(s: Seq<char>, pat: Seq<char>, i: int) -> bool {
    0 <= i && i + pat.len() <= s.len() && s.subrange(i, i + pat.len()) == pat
}

/// Extends a match end over one optional variation selector and then one
/// optional white-space character.
pub open spec fn opt_tail(s: Seq<char>, e: int) -> int {
    let e1 = if e < s.len() && s[e] == '\u{fe0f}' {
        e + 1
    } else {
        e
    };
    if e1 < s.len() && char_is_whitespace(s[e1]) {
        e1 + 1
    } else {
        e1
    }
}

/// The end of a match of `[space?] pat [selector?] [space?]` starting at
/// `i`, preferring to take the leading space, or nothing when the pattern
/// does not stand there.
pub open spec fn emoji_match_end(s: Seq<char>, pat: Seq<char>, i: int) -> Option<int> {
    if 0 <= i < s.len() && char_is_whitespace(s[i]) && lit_at(s, pat, i + 1) {
        Some(opt_tail(s, i + 1 + pat.len()))
    } else if lit_at(s, pat, i) {
        Some(opt_tail(s, i + pat.len()))
    } else {
        None
    }
}

/// The leftmost match of the pattern at or after `i`: its start and end.
pub open spec fn find_emoji_match(s: Seq<char>, pat: Seq<char>, i: int) -> Option<(int, int)>
    decreases s.len() - i,
{
    if !(0 <= i < s.len()) {
        None
    } else {
        match emoji_match_end(s, pat, i) {
            Some(e) => Some((i, e)),
            None => find_emoji_match(s, pat, i + 1),
        }
    }
}

/// The text with the leftmost match of one unit removed, or the text itself
/// when the unit does not occur.
pub open spec fn remove_one_emoji(s: Seq<char>, pat: Seq<char>) -> Seq<char> {
    match find_emoji_match(s, pat, 0) {
        Some((a, e)) => s.take(a) + s.skip(e),
        None => s,
    }
}

/// The text with one leftmost match of each listed unit removed in turn.
pub open spec fn remove_all_emojis(s: Seq<char>, pats: Seq<Seq<char>>) -> Seq<char>
    decreases pats.len(),
{
    if pats.len() == 0 {
        s
    } else {
        remove_one_emoji(remove_all_emojis(s, pats.drop_last()), pats.last())
    }
}

/// The message with the found emoji units removed, one adjacent space on
/// each side taken along, and the rest trimmed.
pub open spec fn spec_remove_gitmoji(commit: Seq<char>, gitmojis: Seq<Seq<char>>) -> Seq<char> {
    trim_of(remove_all_emojis(commit, gitmojis))
}

fn lit_at_exec(s: &Vec<char>, pat: &Vec<char>, i: usize) -> (r: bool)
    requires
        i <= s@.len(),
    ensures
        r == lit_at(s@, pat@, i as int),
{
    if pat.len() > s.len() - i {
        return false;
    }
    let mut k: usize = 0;
    while k < pat.len()
        invariant
            k <= pat@.len(),
            i + pat@.len() <= s@.len(),
            forall|t: int| 0 <= t < k ==> s@[i + t] == pat@[t],
        decreases pat@.len() - k,
    {
        if s[i + k] != pat[k] {
            proof {
                assert(s@.subrange(i as int, i + pat@.len())[k as int] != pat@[k as int]);
            }
            return false;
        }
        k = k + 1;
    }
    proof {
        assert(s@.subrange(i as int, i + pat@.len()) =~= pat@);
    }
    true
}

fn opt_tail_exec(s: &Vec<char>, e: usize) -> (r: usize)
    requires
        e <= s@.len(),
    ensures
        r as int == opt_tail(s@, e as int),
        e <= r <= s@.len(),
{
    let mut e1 = e;
    if e1 < s.len() && s[e1] == '\u{fe0f}' {
        e1 = e1 + 1;
    }
    if e1 < s.len() && is_whitespace_char(s[e1]) {
        e1 = e1 + 1;
    }
    e1
}

fn match_end_exec(s: &Vec<char>, pat: &Vec<char>, i: usize) -> (r: Option<usize>)
    requires
        i < s@.len(),
    ensures
        (match r {
            Some(e) => emoji_match_end(s@, pat@, i as int) == Some(e as int) && e <= s@.len(),
            None => emoji_match_end(s@, pat@, i as int) is None,
        }),
{
    let n = s.len();
    if is_whitespace_char(s[i]) && pat.len() <= n - (i + 1) && lit_at_exec(s, pat, i + 1) {
        Some(opt_tail_exec(s, i + 1 + pat.len()))
    } else if pat.len() <= n - i && lit_at_exec(s, pat, i) {
        Some(opt_tail_exec(s, i + pat.len()))
    } else {
        proof {
            if char_is_whitespace(s@[i as int]) {
                assert(!lit_at(s@, pat@, i as int + 1));
            }
            assert(!lit_at(s@, pat@, i as int));
        }
        None
    }
}

fn remove_one_emoji_exec(s: &Vec<char>, pat: &Vec<char>) -> (r: Vec<char>)
    ensures
        r@ == remove_one_emoji(s@, pat@),
{
    let mut i: usize = 0;
    while i < s.len()
        invariant
            i <= s@.len(),
            find_emoji_match(s@, pat@, 0) == find_emoji_match(s@, pat@, i as int),
        decreases s@.len() - i,
    {
        match match_end_exec(s, pat, i) {
            Some(e) => {
                proof {
                    assert(find_emoji_match(s@, pat@, i as int) == Some((i as int, e as int)));
                }
                let mut r = subvec(s, 0, i);
                let tail = subvec(s, e, s.len());
                extend_vec(&mut r, &tail);
                proof {
                    assert(r@ =~= s@.take(i as int) + s@.skip(e as int));
                }
                return r;
            },
            None => {
                i = i + 1;
            },
        }
    }
    let r = subvec(s, 0, s.len());
    proof {
        assert(r@ =~= s@);
    }
    r
}

/// Removes each found emoji unit from the message once, in order, together
/// with one adjacent space on each side if present, and trims the result.
pub fn remove_gitmoji(commit: &Vec<char>, gitmojis: &Vec<String>) -> (r: Vec<char>)
    ensures
        r@ == spec_remove_gitmoji(commit@, gitmojis.deep_view()),
{
    let ghost dv = gitmojis.deep_view();
    let mut cur = subvec(commit, 0, commit.len());
    proof {
        assert(cur@ =~= commit@);
        assert(dv.take(0) =~= Seq::<Seq<char>>::empty());
    }
    let mut k: usize = 0;
    while k < gitmojis.len()
        invariant
            k <= gitmojis@.len(),
            cur@ == remove_all_emojis(commit@, dv.take(k as int)),
        decreases gitmojis@.len() - k,
    {
        let pat = chars_of(gitmojis[k].as_str());
        proof {
            assert(dv[k as int] == gitmojis@[k as int]@);
        }
        cur = remove_one_emoji_exec(&cur, &pat);
        k = k + 1;
        proof {
            assert(dv.take(k as int).drop_last() =~= dv.take(k as int - 1));
            assert(dv.take(k as int).last() == dv[k as int - 1]);
        }
    }
    proof {
        assert(dv.take(gitmojis@.len() as int) =~= dv);
    }
    trim_chars(&cur)
}

// ---------------------------------------------------------------------------
// Laws of merging
// ---------------------------------------------------------------------------

/// Whether no token of the list is a bare zero-width joiner.
pub open spec fn no_zwj_units(toks: Seq<Seq<char>>) -> bool {
    forall|i: int| 0 <= i < toks.len() ==> toks[i] != zwj_seq()
}

proof fn lemma_combine_zwj_loop_fixed(toks: Seq<Seq<char>>, i: int, acc: Seq<Seq<char>>)
    requires
        0 <= i <= toks.len(),
        no_zwj_units(toks),
    ensures
        combine_zwj_loop(toks, i, acc) == acc + toks.skip(i),
    decreases toks.len() - i,
{
    if i < toks.len() {
        lemma_combine_zwj_loop_fixed(toks, i + 1, acc.push(toks[i]));
        assert(acc.push(toks[i]) + toks.skip(i + 1) =~= acc + toks.skip(i));
    } else {
        assert(acc + toks.skip(i) =~= acc);
    }
}

proof fn lemma_combine_zwj_loop_clean(toks: Seq<Seq<char>>, i: int, acc: Seq<Seq<char>>)
    requires
        0 <= i <= toks.len(),
        forall|t: int| 0 <= t < toks.len() ==> (#[trigger] toks[t]).len() > 0,
        forall|t: int| 0 <= t < acc.len() ==> (#[trigger] acc[t]).len() > 0 && acc[t]
            != zwj_seq(),
    ensures
        no_zwj_units(combine_zwj_loop(toks, i, acc)),
        forall|t: int|
            0 <= t < combine_zwj_loop(toks, i, acc).len() ==> (#[trigger] combine_zwj_loop(
                toks,
                i,
                acc,
            )[t]).len() > 0,
    decreases toks.len() - i,
{
    if 0 <= i < toks.len() {
        if toks[i] == zwj_seq() {
            if acc.len() > 0 && i + 1 < toks.len() {
                let glued = acc.last() + zwj_seq() + toks[i + 1];
                let acc2 = acc.drop_last().push(glued);
                assert(glued.len() >= 2);
                assert forall|t: int| 0 <= t < acc2.len() implies (#[trigger] acc2[t]).len() > 0
                    && acc2[t] != zwj_seq() by {
                    if t < acc2.len() - 1 {
                        assert(acc2[t] == acc[t]);
                    } else {
                        assert(acc2[t] == glued);
                        assert(zwj_seq().len() == 1);
                    }
                }
                lemma_combine_zwj_loop_clean(toks, i + 2, acc2);
            } else {
                lemma_combine_zwj_loop_clean(toks, i + 1, acc);
            }
        } else {
            lemma_combine_zwj_loop_clean(toks, i + 1, acc.push(toks[i]));
        }
    } else {
        assert forall|t: int| 0 <= t < acc.len() implies acc[t] != zwj_seq() by {
            assert((acc[t]).len() > 0);
        }
    }
}

/// Emoji merging is idempotent: merging an already merged token list leaves
/// it unchanged, so units, once merged, are never re-split or re-merged.
pub proof fn lemma_emoji_merging_idempotent(toks: Seq<Seq<char>>)
    requires
        forall|t: int| 0 <= t < toks.len() ==> (#[trigger] toks[t]).len() > 0,
    ensures
        combine_zwj(combine_zwj(toks)) == combine_zwj(toks),
{
    lemma_combine_zwj_loop_clean(toks, 0, seq![]);
    lemma_combine_zwj_loop_fixed(combine_zwj(toks), 0, seq![]);
    assert(Seq::<Seq<char>>::empty() + combine_zwj(toks).skip(0) =~= combine_zwj(toks));
}

} // verus!
