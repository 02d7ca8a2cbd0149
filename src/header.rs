//! The header of a voice: its features record and its name.
use crate::de::{str_eq, Deserializer};
use crate::decode::Decode;
use crate::error::Error;
use crate::gender::Gender;
use crate::wire::{
    decoded, field_spec, kept, moved_forward, str_spec, text_uint_spec, Cursor, Step,
};
use vstd::prelude::*;

verus! {

/// The language of a voice.
#[derive(Clone, Copy, Debug, PartialEq, Eq, Structural)]
pub enum Language {
    /// Written `eng`.
    English,
}

impl DeepView for Language {
    type V = Language;

    open spec fn deep_view(&self) -> Language {
        *self
    }
}

/// The language that a name stands for.
pub open spec fn language_of(s: Seq<char>) -> Option<Language> {
    if s == "eng"@ {
        Some(Language::English)
    } else {
        None
    }
}

impl Language {
    /// The language that `s` names, if any.
    pub fn from_name(s: &str) -> (r: Option<Language>)
        ensures
            r == language_of(s@),
    {
        if str_eq(s, "eng") {
            Some(Language::English)
        } else {
            None
        }
    }
}

/// A language is stored as the text of its name.
impl Decode for Language {
    open spec fn spec_decode(c: Cursor) -> Step<Language> {
        match str_spec(c) {
            Err(e) => Err(e),
            Ok((s, c1)) => match language_of(s) {
                Some(l) => Ok((l, c1)),
                None => Err(Error::UnknownVariant),
            },
        }
    }

    proof fn lemma_decode_moves(c: Cursor) {
    }

    fn decode(d: &mut Deserializer<'_>) -> (r: Result<Language, Error>) {
        let s = match d.parse_str() {
            Ok(s) => s,
            Err(e) => return Err(e),
        };
        match Language::from_name(s.as_str()) {
            Some(l) => Ok(l),
            None => Err(Error::UnknownVariant),
        }
    }
}

/// The marker that closes a features record, written `end_of_features`.
#[derive(Clone, Copy, Debug, PartialEq, Eq, Structural)]
pub enum EndOfFeatures {
    EndOfFeatures,
}

impl DeepView for EndOfFeatures {
    type V = EndOfFeatures;

    open spec fn deep_view(&self) -> EndOfFeatures {
        *self
    }
}

impl Decode for EndOfFeatures {
    open spec fn spec_decode(c: Cursor) -> Step<EndOfFeatures> {
        match str_spec(c) {
            Err(e) => Err(e),
            Ok((s, c1)) => if s == "end_of_features"@ {
                Ok((EndOfFeatures::EndOfFeatures, c1))
            } else {
                Err(Error::UnknownVariant)
            },
        }
    }

    proof fn lemma_decode_moves(c: Cursor) {
    }

    fn decode(d: &mut Deserializer<'_>) -> (r: Result<EndOfFeatures, Error>) {
        let s = match d.parse_str() {
            Ok(s) => s,
            Err(e) => return Err(e),
        };
        if str_eq(s.as_str(), "end_of_features") {
            Ok(EndOfFeatures::EndOfFeatures)
        } else {
            Err(Error::UnknownVariant)
        }
    }
}

/// The features record that describes a voice. Each field stands in the
/// stream as its name, then its value; counts and the age are decimal text.
/// The build date is kept as the text the file holds.
#[derive(Debug, PartialEq)]
pub struct Features {
    pub language: String,
    pub country: String,
    pub variant: String,
    pub age: u32,
    pub gender: Gender,
    pub build_date: String,
    pub description: String,
    pub eng_shared: u32,
    pub copyright: String,
    pub num_dur_models: u32,
    pub num_param_models: u32,
    pub model_shape: u32,
    pub num_f0_models: u32,
    pub end_of_features: EndOfFeatures,
}

/// The model of [`Features`], with each text as its characters.
pub struct FeaturesView {
    pub language: Seq<char>,
    pub country: Seq<char>,
    pub variant: Seq<char>,
    pub age: u32,
    pub gender: Gender,
    pub build_date: Seq<char>,
    pub description: Seq<char>,
    pub eng_shared: u32,
    pub copyright: Seq<char>,
    pub num_dur_models: u32,
    pub num_param_models: u32,
    pub model_shape: u32,
    pub num_f0_models: u32,
    pub end_of_features: EndOfFeatures,
}

impl DeepView for Features {
    type V = FeaturesView;

    open spec fn deep_view(&self) -> FeaturesView {
        FeaturesView {
            language: self.language@,
            country: self.country@,
            variant: self.variant@,
            age: self.age,
            gender: self.gender,
            build_date: self.build_date@,
            description: self.description@,
            eng_shared: self.eng_shared,
            copyright: self.copyright@,
            num_dur_models: self.num_dur_models,
            num_param_models: self.num_param_models,
            model_shape: self.model_shape,
            num_f0_models: self.num_f0_models,
            end_of_features: self.end_of_features,
        }
    }
}

/// A record field named `name` whose value has shape `T`.
#[verifier::opaque]
pub open spec fn field_value<T: Decode>(c: Cursor, name: &'static str) -> Step<T::V> {
    match field_spec(c, name) {
        Err(e) => Err(e),
        Ok((_, c1)) => T::spec_decode(c1),
    }
}

/// A record field named `name` whose value is an unsigned 32-bit number
/// written in decimal.
#[verifier::opaque]
pub open spec fn uint_field(c: Cursor, name: &'static str) -> Step<u32> {
    match field_spec(c, name) {
        Err(e) => Err(e),
        Ok((_, c1)) => match text_uint_spec(c1, u32::MAX as u128) {
            Err(e) => Err(e),
            Ok((v, c2)) => Ok((v as u32, c2)),
        },
    }
}

fn field<T: Decode>(d: &mut Deserializer<'_>, name: &'static str) -> (r: Result<T, Error>)
    ensures
        decoded(r, final(d)@, field_value::<T>(old(d)@, name)),
        kept(old(d)@, final(d)@),
{
    reveal(field_value);
    match d.expect_field(name) {
        Ok(()) => T::decode(d),
        Err(e) => Err(e),
    }
}

fn decimal_field(d: &mut Deserializer<'_>, name: &'static str) -> (r: Result<u32, Error>)
    ensures
        decoded(r, final(d)@, uint_field(old(d)@, name)),
        kept(old(d)@, final(d)@),
{
    reveal(uint_field);
    match d.expect_field(name) {
        Ok(()) => d.parse_u32_text(),
        Err(e) => Err(e),
    }
}

/// The features record: its fields in their fixed order, each checked by name.
pub open spec fn features_spec(c: Cursor) -> Step<FeaturesView> {
    match field_value::<String>(c, "language") {
        Err(e) => Err(e),
        Ok((language, c)) => match field_value::<String>(c, "country") {
            Err(e) => Err(e),
            Ok((country, c)) => match field_value::<String>(c, "variant") {
                Err(e) => Err(e),
                Ok((variant, c)) => match uint_field(c, "age") {
                    Err(e) => Err(e),
                    Ok((age, c)) => match field_value::<Gender>(c, "gender") {
                        Err(e) => Err(e),
                        Ok((gender, c)) => match field_value::<String>(c, "build_date") {
                            Err(e) => Err(e),
                            Ok((build_date, c)) => match field_value::<String>(c, "description") {
                                Err(e) => Err(e),
                                Ok((description, c)) => match uint_field(c, "eng_shared") {
                                    Err(e) => Err(e),
                                    Ok((eng_shared, c)) => features_tail_spec(
                                        c,
                                        language,
                                        country,
                                        variant,
                                        age,
                                        gender,
                                        build_date,
                                        description,
                                        eng_shared,
                                    ),
                                },
                            },
                        },
                    },
                },
            },
        },
    }
}

/// The fields of the features record from `copyright` on, given those before.
pub open spec fn features_tail_spec(
    c: Cursor,
    language: Seq<char>,
    country: Seq<char>,
    variant: Seq<char>,
    age: u32,
    gender: Gender,
    build_date: Seq<char>,
    description: Seq<char>,
    eng_shared: u32,
) -> Step<FeaturesView> {
    match field_value::<String>(c, "copyright") {
        Err(e) => Err(e),
        Ok((copyright, c)) => match uint_field(c, "num_dur_models") {
            Err(e) => Err(e),
            Ok((num_dur_models, c)) => match uint_field(c, "num_param_models") {
                Err(e) => Err(e),
                Ok((num_param_models, c)) => match uint_field(c, "model_shape") {
                    Err(e) => Err(e),
                    Ok((model_shape, c)) => match uint_field(c, "num_f0_models") {
                        Err(e) => Err(e),
                        Ok((num_f0_models, c)) => match field_value::<EndOfFeatures>(
                            c,
                            "end_of_features",
                        ) {
                            Err(e) => Err(e),
                            Ok((end_of_features, c)) => Ok(
                                (
                                    FeaturesView {
                                        language,
                                        country,
                                        variant,
                                        age,
                                        gender,
                                        build_date,
                                        description,
                                        eng_shared,
                                        copyright,
                                        num_dur_models,
                                        num_param_models,
                                        model_shape,
                                        num_f0_models,
                                        end_of_features,
                                    },
                                    c,
                                ),
                            ),
                        },
                    },
                },
            },
        },
    }
}

impl Decode for Features {
    open spec fn spec_decode(c: Cursor) -> Step<FeaturesView> {
        features_spec(c)
    }

    proof fn lemma_decode_moves(c: Cursor) {
        lemma_field_moves::<String>(c, "language");
        if let Ok((_, c1)) = field_value::<String>(c, "language") {
            lemma_field_moves::<String>(c1, "country");
            if let Ok((_, c2)) = field_value::<String>(c1, "country") {
                lemma_field_moves::<String>(c2, "variant");
                if let Ok((_, c3)) = field_value::<String>(c2, "variant") {
                    lemma_uint_field_moves(c3, "age");
                    if let Ok((_, c4)) = uint_field(c3, "age") {
                        lemma_field_moves::<Gender>(c4, "gender");
                        if let Ok((_, c5)) = field_value::<Gender>(c4, "gender") {
                            lemma_field_moves::<String>(c5, "build_date");
                            if let Ok((_, c6)) = field_value::<String>(c5, "build_date") {
                                lemma_field_moves::<String>(c6, "description");
                                if let Ok((_, c7)) = field_value::<String>(c6, "description") {
                                    lemma_uint_field_moves(c7, "eng_shared");
                                    if let Ok((_, c8)) = uint_field(c7, "eng_shared") {
                                        lemma_field_moves::<String>(c8, "copyright");
                                        if let Ok((_, c9)) = field_value::<String>(c8, "copyright") {
                                            lemma_uint_field_moves(c9, "num_dur_models");
                                            if let Ok((_, c10)) = uint_field(c9, "num_dur_models") {
                                                lemma_uint_field_moves(c10, "num_param_models");
                                                if let Ok((_, c11)) = uint_field(c10, "num_param_models") {
                                                    lemma_uint_field_moves(c11, "model_shape");
                                                    if let Ok((_, c12)) = uint_field(c11, "model_shape") {
                                                        lemma_uint_field_moves(c12, "num_f0_models");
                                                        if let Ok((_, c13)) = uint_field(c12, "num_f0_models") {
                                                            lemma_field_moves::<EndOfFeatures>(c13, "end_of_features");
                                                        }
                                                    }
                                                }
                                            }
                                        }
                                    }
                                }
                            }
                        }
                    }
                }
            }
        }
    }

    fn decode(d: &mut Deserializer<'_>) -> (r: Result<Features, Error>) {
        let language = match field::<String>(d, "language") {
            Ok(v) => v,
            Err(e) => return Err(e),
        };
        let country = match field::<String>(d, "country") {
            Ok(v) => v,
            Err(e) => return Err(e),
        };
        let variant = match field::<String>(d, "variant") {
            Ok(v) => v,
            Err(e) => return Err(e),
        };
        let age = match decimal_field(d, "age") {
            Ok(v) => v,
            Err(e) => return Err(e),
        };
        let gender = match field::<Gender>(d, "gender") {
            Ok(v) => v,
            Err(e) => return Err(e),
        };
        let build_date = match field::<String>(d, "build_date") {
            Ok(v) => v,
            Err(e) => return Err(e),
        };
        let description = match field::<String>(d, "description") {
            Ok(v) => v,
            Err(e) => return Err(e),
        };
        let eng_shared = match decimal_field(d, "eng_shared") {
            Ok(v) => v,
            Err(e) => return Err(e),
        };
        let copyright = match field::<String>(d, "copyright") {
            Ok(v) => v,
            Err(e) => return Err(e),
        };
        let num_dur_models = match decimal_field(d, "num_dur_models") {
            Ok(v) => v,
            Err(e) => return Err(e),
        };
        let num_param_models = match decimal_field(d, "num_param_models") {
            Ok(v) => v,
            Err(e) => return Err(e),
        };
        let model_shape = match decimal_field(d, "model_shape") {
            Ok(v) => v,
            Err(e) => return Err(e),
        };
        let num_f0_models = match decimal_field(d, "num_f0_models") {
            Ok(v) => v,
            Err(e) => return Err(e),
        };
        let end_of_features = match field::<EndOfFeatures>(d, "end_of_features") {
            Ok(v) => v,
            Err(e) => return Err(e),
        };
        Ok(
            Features {
                language,
                country,
                variant,
                age,
                gender,
                build_date,
                description,
                eng_shared,
                copyright,
                num_dur_models,
                num_param_models,
                model_shape,
                num_f0_models,
                end_of_features,
            },
        )
    }
}

/// A field read that succeeds moves forward.
proof fn lemma_field_moves<T: Decode>(c: Cursor, name: &'static str)
    ensures
        moved_forward(c, field_value::<T>(c, name)),
{
    reveal(field_value);
    if let Ok((_, c1)) = field_spec(c, name) {
        T::lemma_decode_moves(c1);
    }
}

/// A decimal field read that succeeds moves forward.
proof fn lemma_uint_field_moves(c: Cursor, name: &'static str)
    ensures
        moved_forward(c, uint_field(c, name)),
{
    reveal(uint_field);
}

/// The header of a voice: its features, then its name.
#[derive(Debug, PartialEq)]
pub struct Header {
    pub features: Features,
    pub name: String,
}

impl DeepView for Header {
    type V = (FeaturesView, Seq<char>);

    open spec fn deep_view(&self) -> (FeaturesView, Seq<char>) {
        (self.features.deep_view(), self.name@)
    }
}

/// The header is the pair of its features and its name, with no field names.
impl Decode for Header {
    open spec fn spec_decode(c: Cursor) -> Step<(FeaturesView, Seq<char>)> {
        <(Features, String) as Decode>::spec_decode(c)
    }

    proof fn lemma_decode_moves(c: Cursor) {
        <(Features, String) as Decode>::lemma_decode_moves(c);
    }

    fn decode(d: &mut Deserializer<'_>) -> (r: Result<Header, Error>) {
        match <(Features, String) as Decode>::decode(d) {
            Ok((features, name)) => Ok(Header { features, name }),
            Err(e) => Err(e),
        }
    }
}

} // verus!
