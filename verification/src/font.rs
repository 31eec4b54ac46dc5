//! Local font stylesheet rendering: `@font-face` definitions and the
//! stylesheet that combines them with the fallback and class rules.
//!
//! Pure text composition over the font options; the inputs that other
//! parts of the build compute — the scoped family name, the fallback
//! definition, the class rules — arrive as plain values.

use vstd::prelude::*;
use crate::text::append_chars;
use crate::text::append_str;
use crate::text::chars_eq_str;
use crate::text::chars_of;

verus! {

/// The error the font stylesheet reports.
#[derive(Debug, PartialEq, Eq)]
pub enum FontError {
    /// A font file's extension names no known format.
    UnknownExtension,
}

/// The `format()` name of a font file extension, if the extension is
/// known.
pub open spec fn format_of(ext: Seq<char>) -> Option<Seq<char>> {
    if ext == "woff"@ {
        Some("woff"@)
    } else if ext == "woff2"@ {
        Some("woff2"@)
    } else if ext == "ttf"@ {
        Some("truetype"@)
    } else if ext == "otf"@ {
        Some("opentype"@)
    } else if ext == "eot"@ {
        Some("embedded-opentype"@)
    } else {
        None
    }
}

/// Maps a font file extension to the format name written into `src`
/// properties of `@font-face` definitions. Succeeds exactly on the known
/// extensions.
pub fn ext_to_format(ext: &Vec<char>) -> (r: Result<Vec<char>, FontError>)
    ensures
        match r {
            Ok(f) => format_of(ext@) == Some(f@),
            Err(e) => format_of(ext@) is None && e == FontError::UnknownExtension,
        },
{
    if chars_eq_str(ext, "woff") {
        Ok(chars_of("woff"))
    } else if chars_eq_str(ext, "woff2") {
        Ok(chars_of("woff2"))
    } else if chars_eq_str(ext, "ttf") {
        Ok(chars_of("truetype"))
    } else if chars_eq_str(ext, "otf") {
        Ok(chars_of("opentype"))
    } else if chars_eq_str(ext, "eot") {
        Ok(chars_of("embedded-opentype"))
    } else {
        Err(FontError::UnknownExtension)
    }
}

/// One local font file.
#[derive(Debug)]
pub struct FontDescriptor {
    /// Where the font file lives.
    pub path: Vec<char>,
    /// The file's extension.
    pub ext: Vec<char>,
    /// The weight this file carries, if stated.
    pub weight: Option<Vec<char>>,
    /// The style this file carries, if stated.
    pub style: Option<Vec<char>>,
}

/// The mathematical value of a [`FontDescriptor`].
#[verifier::ext_equal]
pub struct FontModel {
    /// Where the font file lives.
    pub path: Seq<char>,
    /// The file's extension.
    pub ext: Seq<char>,
    /// The weight this file carries, if stated.
    pub weight: Option<Seq<char>>,
    /// The style this file carries, if stated.
    pub style: Option<Seq<char>>,
}

impl View for FontDescriptor {
    type V = FontModel;

    open spec fn view(&self) -> FontModel {
        FontModel {
            path: self.path@,
            ext: self.ext@,
            weight: match self.weight {
                Some(w) => Some(w@),
                None => None,
            },
            style: match self.style {
                Some(s) => Some(s@),
                None => None,
            },
        }
    }
}

/// The values of a sequence of font descriptors.
pub open spec fn fonts_view(s: Seq<FontDescriptor>) -> Seq<FontModel> {
    s.map_values(|f: FontDescriptor| f@)
}

/// The font files of the options: one, or many.
#[derive(Debug)]
pub enum FontDescriptors {
    /// A single font file.
    One(FontDescriptor),
    /// Several font files.
    Many(Vec<FontDescriptor>),
}

/// The options of a local font.
#[derive(Debug)]
pub struct NextFontLocalOptions {
    /// The font files.
    pub fonts: FontDescriptors,
    /// The `font-display` policy.
    pub display: Vec<char>,
    /// The weight assumed for files that state none.
    pub default_weight: Option<Vec<char>>,
    /// The style assumed for files that state none.
    pub default_style: Option<Vec<char>>,
}

/// The value of an optional text field.
pub open spec fn opt_chars_view(o: Option<Vec<char>>) -> Option<Seq<char>> {
    match o {
        Some(v) => Some(v@),
        None => None,
    }
}

/// The font files of the options, as one sequence.
pub open spec fn fonts_of(o: NextFontLocalOptions) -> Seq<FontModel> {
    match o.fonts {
        FontDescriptors::One(d) => seq![d@],
        FontDescriptors::Many(v) => fonts_view(v@),
    }
}

/// A file's own value, or the default.
pub open spec fn effective(own: Option<Seq<char>>, fallback: Option<Seq<char>>) -> Option<
    Seq<char>,
> {
    if own is Some {
        own
    } else {
        fallback
    }
}

/// The `font-weight` property, or nothing.
pub open spec fn weight_part(w: Option<Seq<char>>) -> Seq<char> {
    match w {
        Some(x) => "font-weight: "@ + x + ";"@,
        None => Seq::empty(),
    }
}

/// The `font-style` property, or nothing.
pub open spec fn style_part(s: Option<Seq<char>>) -> Seq<char> {
    match s {
        Some(x) => "font-style: "@ + x + ";"@,
        None => Seq::empty(),
    }
}

/// One `@font-face` definition, for a font file whose extension is known.
pub open spec fn font_face_block(
    family: Seq<char>,
    f: FontModel,
    display: Seq<char>,
    default_weight: Option<Seq<char>>,
    default_style: Option<Seq<char>>,
) -> Seq<char> {
    "@font-face {\n    font-family: '"@ + family + "';\n    src: url('"@ + f.path
        + "') format('"@ + format_of(f.ext)->Some_0 + "');\n    font-display: "@ + display
        + ";\n    "@ + weight_part(effective(f.weight, default_weight)) + style_part(
        effective(f.style, default_style),
    ) + "\n}\n"@
}

/// The `@font-face` definitions of a font file sequence, concatenated in
/// order.
pub open spec fn font_face_blocks(
    family: Seq<char>,
    fonts: Seq<FontModel>,
    display: Seq<char>,
    default_weight: Option<Seq<char>>,
    default_style: Option<Seq<char>>,
) -> Seq<char>
    decreases fonts.len(),
{
    if fonts.len() == 0 {
        Seq::empty()
    } else {
        font_face_blocks(family, fonts.drop_last(), display, default_weight, default_style)
            + font_face_block(family, fonts.last(), display, default_weight, default_style)
    }
}

/// Whether every font file's extension is known.
pub open spec fn all_exts_known(fonts: Seq<FontModel>) -> bool {
    forall|i: int| 0 <= i < fonts.len() ==> format_of(#[trigger] fonts[i].ext) is Some
}

/// Appends one `@font-face` definition for one font file.
fn push_font_face(
    out: &mut Vec<char>,
    family: &Vec<char>,
    font: &FontDescriptor,
    display: &Vec<char>,
    default_weight: &Option<Vec<char>>,
    default_style: &Option<Vec<char>>,
) -> (r: Result<(), FontError>)
    ensures
        match r {
            Ok(_) => format_of(font@.ext) is Some && final(out)@ == old(out)@ + font_face_block(
                family@,
                font@,
                display@,
                opt_chars_view(*default_weight),
                opt_chars_view(*default_style),
            ),
            Err(e) => format_of(font@.ext) is None && e == FontError::UnknownExtension
                && final(out)@ == old(out)@,
        },
{
    let format = match ext_to_format(&font.ext) {
        Ok(f) => f,
        Err(e) => {
            return Err(e);
        },
    };
    let mut weight_text: Vec<char> = Vec::new();
    match &font.weight {
        Some(w) => {
            append_str(&mut weight_text, "font-weight: ");
            append_chars(&mut weight_text, w);
            append_str(&mut weight_text, ";");
        },
        None => match default_weight {
            Some(w) => {
                append_str(&mut weight_text, "font-weight: ");
                append_chars(&mut weight_text, w);
                append_str(&mut weight_text, ";");
            },
            None => {},
        },
    }
    proof {
        assert(weight_text@ =~= weight_part(effective(font@.weight, opt_chars_view(*default_weight))));
    }
    let mut style_text: Vec<char> = Vec::new();
    match &font.style {
        Some(st) => {
            append_str(&mut style_text, "font-style: ");
            append_chars(&mut style_text, st);
            append_str(&mut style_text, ";");
        },
        None => match default_style {
            Some(st) => {
                append_str(&mut style_text, "font-style: ");
                append_chars(&mut style_text, st);
                append_str(&mut style_text, ";");
            },
            None => {},
        },
    }
    proof {
        assert(style_text@ =~= style_part(effective(font@.style, opt_chars_view(*default_style))));
    }
    append_str(out, "@font-face {\n    font-family: '");
    append_chars(out, family);
    append_str(out, "';\n    src: url('");
    append_chars(out, &font.path);
    append_str(out, "') format('");
    append_chars(out, &format);
    append_str(out, "');\n    font-display: ");
    append_chars(out, display);
    append_str(out, ";\n    ");
    append_chars(out, &weight_text);
    append_chars(out, &style_text);
    append_str(out, "\n}\n");
    proof {
        assert(out@ =~= old(out)@ + font_face_block(
            family@,
            font@,
            display@,
            opt_chars_view(*default_weight),
            opt_chars_view(*default_style),
        ));
    }
    Ok(())
}

/// Builds the `@font-face` definitions for every local font file, in
/// order. Succeeds exactly when every file's extension is known; an
/// unknown extension is reported and nothing partial is returned.
pub fn build_font_face_definitions(
    scoped_font_family: &Vec<char>,
    options: &NextFontLocalOptions,
) -> (r: Result<Vec<char>, FontError>)
    ensures
        match r {
            Ok(s) => all_exts_known(fonts_of(*options)) && s@ == font_face_blocks(
                scoped_font_family@,
                fonts_of(*options),
                options.display@,
                opt_chars_view(options.default_weight),
                opt_chars_view(options.default_style),
            ),
            Err(e) => !all_exts_known(fonts_of(*options)) && e == FontError::UnknownExtension,
        },
{
    let ghost fam = scoped_font_family@;
    let ghost fonts = fonts_of(*options);
    let ghost disp = options.display@;
    let ghost dw: Option<Seq<char>> = opt_chars_view(options.default_weight);
    let ghost ds: Option<Seq<char>> = opt_chars_view(options.default_style);
    let mut out: Vec<char> = Vec::new();
    match &options.fonts {
        FontDescriptors::One(d) => {
            match push_font_face(
                &mut out,
                scoped_font_family,
                d,
                &options.display,
                &options.default_weight,
                &options.default_style,
            ) {
                Ok(_) => {
                    proof {
                        assert(fonts.len() == 1);
                        assert(fonts.last() == d@);
                        assert(fonts.drop_last() =~= Seq::<FontModel>::empty());
                        assert(font_face_blocks(fam, Seq::<FontModel>::empty(), disp, dw, ds)
                            == Seq::<char>::empty());
                        assert(font_face_blocks(fam, fonts, disp, dw, ds) == Seq::<
                            char,
                        >::empty() + font_face_block(fam, d@, disp, dw, ds));
                        assert(out@ =~= font_face_blocks(fam, fonts, disp, dw, ds));
                    }
                    Ok(out)
                },
                Err(e) => {
                    proof {
                        assert(fonts[0] == d@);
                        assert(!all_exts_known(fonts));
                    }
                    Err(e)
                },
            }
        },
        FontDescriptors::Many(v) => {
            let mut i: usize = 0;
            while i < v.len()
                invariant
                    i <= v@.len(),
                    fonts == fonts_of(*options),
                    fonts == fonts_view(v@),
                    fam == scoped_font_family@,
                    disp == options.display@,
                    dw == opt_chars_view(options.default_weight),
                    ds == opt_chars_view(options.default_style),
                    all_exts_known(fonts.take(i as int)),
                    out@ == font_face_blocks(fam, fonts.take(i as int), disp, dw, ds),
                decreases v@.len() - i,
            {
                proof {
                    assert(fonts[i as int] == v@[i as int]@);
                }
                match push_font_face(
                    &mut out,
                    scoped_font_family,
                    &v[i],
                    &options.display,
                    &options.default_weight,
                    &options.default_style,
                ) {
                    Ok(_) => {},
                    Err(e) => {
                        proof {
                            assert(format_of(fonts[i as int].ext) is None);
                            assert(!all_exts_known(fonts));
                        }
                        return Err(e);
                    },
                }
                proof {
                    let step = fonts.take(i + 1 as int);
                    assert(step.drop_last() =~= fonts.take(i as int));
                    assert(step.last() == fonts[i as int]);
                    assert(out@ == font_face_blocks(fam, step, disp, dw, ds));
                    assert forall|j: int| 0 <= j < i + 1 implies format_of(
                        #[trigger] step[j].ext,
                    ) is Some by {
                        if j < i {
                            assert(fonts.take(i as int)[j] == step[j]);
                        }
                    }
                    assert(all_exts_known(step));
                }
                i += 1;
            }
            proof {
                assert(fonts.take(fonts.len() as int) =~= fonts);
                assert(fonts.len() == v@.len());
            }
            Ok(out)
        },
    }
}

/// Builds the whole stylesheet: the `@font-face` definitions, the
/// fallback definition and the class rules, each on its own line, in
/// that order. Fails exactly when a font file's extension is unknown.
pub fn build_stylesheet(
    scoped_font_family: &Vec<char>,
    options: &NextFontLocalOptions,
    fallback_definition: &Vec<char>,
    font_class_rules: &Vec<char>,
) -> (r: Result<Vec<char>, FontError>)
    ensures
        match r {
            Ok(s) => all_exts_known(fonts_of(*options)) && s@ == font_face_blocks(
                scoped_font_family@,
                fonts_of(*options),
                options.display@,
                opt_chars_view(options.default_weight),
                opt_chars_view(options.default_style),
            ) + seq!['\n'] + fallback_definition@ + seq!['\n'] + font_class_rules@ + seq!['\n'],
            Err(e) => !all_exts_known(fonts_of(*options)) && e == FontError::UnknownExtension,
        },
{
    let definitions = match build_font_face_definitions(scoped_font_family, options) {
        Ok(d) => d,
        Err(e) => {
            return Err(e);
        },
    };
    let mut out: Vec<char> = Vec::new();
    append_chars(&mut out, &definitions);
    out.push('\n');
    append_chars(&mut out, fallback_definition);
    out.push('\n');
    append_chars(&mut out, font_class_rules);
    out.push('\n');
    proof {
        assert(out@ =~= definitions@ + seq!['\n'] + fallback_definition@ + seq!['\n']
            + font_class_rules@ + seq!['\n']);
    }
    Ok(out)
}

} // verus!
