//! The body of a cluster-generation voice: its types, its sampling figures
//! and its F0 decision trees, whose number the header gives.
use crate::de::Deserializer;
use crate::decode::{items_spec, lemma_items_moves, seq_spec, Decode};
use crate::error::Error;
use crate::header::{FeaturesView, Header};
use crate::wire::{
    decoded, i32_spec, kept, moved_forward, str_spec, u16_spec, u8_spec, word_spec, Cursor, Step,
};
use vstd::prelude::*;

verus! {

/// A value held in a tree node, tagged by a leading discriminant. `Float`
/// holds the IEEE 754 bit pattern of a single-precision number. A tag that
/// names no kind gives `Other` with the 32-bit payload that follows it.
#[derive(Debug, PartialEq)]
pub enum CstVal {
    Cons(i32),
    Int(i32),
    Float(u32),
    Str(String),
    FirstFree(i32),
    Other(i32),
}

/// The model of [`CstVal`], with a text as its characters.
pub enum CstValView {
    Cons(i32),
    Int(i32),
    Float(u32),
    Str(Seq<char>),
    FirstFree(i32),
    Other(i32),
}

impl DeepView for CstVal {
    type V = CstValView;

    open spec fn deep_view(&self) -> CstValView {
        match self {
            CstVal::Cons(v) => CstValView::Cons(*v),
            CstVal::Int(v) => CstValView::Int(*v),
            CstVal::Float(v) => CstValView::Float(*v),
            CstVal::Str(s) => CstValView::Str(s@),
            CstVal::FirstFree(v) => CstValView::FirstFree(*v),
            CstVal::Other(v) => CstValView::Other(*v),
        }
    }
}

/// The value that an integer payload gives under tag `tag`.
pub open spec fn int_val(tag: i32, v: i32) -> CstValView {
    if tag == 0 {
        CstValView::Cons(v)
    } else if tag == 1 {
        CstValView::Int(v)
    } else if tag == 7 {
        CstValView::FirstFree(v)
    } else {
        CstValView::Other(v)
    }
}

/// A raw signed tag, then its payload: text for tag 5, a raw float for tag
/// 3, and a raw signed number for every other tag.
impl Decode for CstVal {
    open spec fn spec_decode(c: Cursor) -> Step<CstValView> {
        match i32_spec(c) {
            Err(e) => Err(e),
            Ok((tag, c1)) => if tag == 5 {
                match str_spec(c1) {
                    Err(e) => Err(e),
                    Ok((s, c2)) => Ok((CstValView::Str(s), c2)),
                }
            } else if tag == 3 {
                match word_spec(c1) {
                    Err(e) => Err(e),
                    Ok((w, c2)) => Ok((CstValView::Float(w), c2)),
                }
            } else {
                match i32_spec(c1) {
                    Err(e) => Err(e),
                    Ok((v, c2)) => Ok((int_val(tag, v), c2)),
                }
            },
        }
    }

    proof fn lemma_decode_moves(c: Cursor) {
    }

    fn decode(d: &mut Deserializer<'_>) -> (r: Result<CstVal, Error>) {
        let tag = match d.parse_i32() {
            Ok(t) => t,
            Err(e) => return Err(e),
        };
        if tag == 5 {
            match d.parse_str() {
                Ok(s) => Ok(CstVal::Str(s)),
                Err(e) => Err(e),
            }
        } else if tag == 3 {
            match d.parse_f32_bits() {
                Ok(w) => Ok(CstVal::Float(w)),
                Err(e) => Err(e),
            }
        } else {
            match d.parse_i32() {
                Ok(v) => if tag == 0 {
                    Ok(CstVal::Cons(v))
                } else if tag == 1 {
                    Ok(CstVal::Int(v))
                } else if tag == 7 {
                    Ok(CstVal::FirstFree(v))
                } else {
                    Ok(CstVal::Other(v))
                },
                Err(e) => Err(e),
            }
        }
    }
}

/// A tree node: feature, operator, subtree number and value, in that order.
#[derive(Debug, PartialEq)]
pub struct TreeNode(pub u8, pub u8, pub u16, pub CstVal);

impl DeepView for TreeNode {
    type V = (u8, u8, u16, CstValView);

    open spec fn deep_view(&self) -> (u8, u8, u16, CstValView) {
        (self.0, self.1, self.2, self.3.deep_view())
    }
}

/// Four positional fields with no count.
impl Decode for TreeNode {
    open spec fn spec_decode(c: Cursor) -> Step<(u8, u8, u16, CstValView)> {
        match u8_spec(c) {
            Err(e) => Err(e),
            Ok((feat, c1)) => match u8_spec(c1) {
                Err(e) => Err(e),
                Ok((op, c2)) => match u16_spec(c2) {
                    Err(e) => Err(e),
                    Ok((no, c3)) => match CstVal::spec_decode(c3) {
                        Err(e) => Err(e),
                        Ok((v, c4)) => Ok(((feat, op, no, v), c4)),
                    },
                },
            },
        }
    }

    proof fn lemma_decode_moves(c: Cursor) {
        if let Ok((_, c1)) = u8_spec(c) {
            if let Ok((_, c2)) = u8_spec(c1) {
                if let Ok((_, c3)) = u16_spec(c2) {
                    CstVal::lemma_decode_moves(c3);
                }
            }
        }
    }

    fn decode(d: &mut Deserializer<'_>) -> (r: Result<TreeNode, Error>) {
        let feat = match d.parse_u8() {
            Ok(v) => v,
            Err(e) => return Err(e),
        };
        let op = match d.parse_u8() {
            Ok(v) => v,
            Err(e) => return Err(e),
        };
        let no = match d.parse_u16() {
            Ok(v) => v,
            Err(e) => return Err(e),
        };
        match CstVal::decode(d) {
            Ok(v) => Ok(TreeNode(feat, op, no, v)),
            Err(e) => Err(e),
        }
    }
}

/// The names of the features a tree asks about: a dynamic sequence of text.
#[derive(Debug, PartialEq)]
pub struct TreeFeatures(pub Vec<String>);

impl DeepView for TreeFeatures {
    type V = Seq<Seq<char>>;

    open spec fn deep_view(&self) -> Seq<Seq<char>> {
        self.0.deep_view()
    }
}

impl Decode for TreeFeatures {
    open spec fn spec_decode(c: Cursor) -> Step<Seq<Seq<char>>> {
        seq_spec::<String>(c)
    }

    proof fn lemma_decode_moves(c: Cursor) {
        Vec::<String>::lemma_decode_moves(c);
    }

    fn decode(d: &mut Deserializer<'_>) -> (r: Result<TreeFeatures, Error>) {
        match d.parse_seq() {
            Ok(v) => Ok(TreeFeatures(v)),
            Err(e) => Err(e),
        }
    }
}

/// A decision tree: its node and its feature names.
#[derive(Debug, PartialEq)]
pub struct Tree(pub TreeNode, pub TreeFeatures);

impl DeepView for Tree {
    type V = ((u8, u8, u16, CstValView), Seq<Seq<char>>);

    open spec fn deep_view(&self) -> ((u8, u8, u16, CstValView), Seq<Seq<char>>) {
        (self.0.deep_view(), self.1.deep_view())
    }
}

impl Decode for Tree {
    open spec fn spec_decode(c: Cursor) -> Step<((u8, u8, u16, CstValView), Seq<Seq<char>>)> {
        <(TreeNode, TreeFeatures) as Decode>::spec_decode(c)
    }

    proof fn lemma_decode_moves(c: Cursor) {
        <(TreeNode, TreeFeatures) as Decode>::lemma_decode_moves(c);
    }

    fn decode(d: &mut Deserializer<'_>) -> (r: Result<Tree, Error>) {
        match <(TreeNode, TreeFeatures) as Decode>::decode(d) {
            Ok((node, features)) => Ok(Tree(node, features)),
            Err(e) => Err(e),
        }
    }
}

/// The trees of one F0 model: a dynamic sequence.
#[derive(Debug, PartialEq)]
pub struct F0Tree(pub Vec<Tree>);

impl DeepView for F0Tree {
    type V = Seq<((u8, u8, u16, CstValView), Seq<Seq<char>>)>;

    open spec fn deep_view(&self) -> Seq<((u8, u8, u16, CstValView), Seq<Seq<char>>)> {
        self.0.deep_view()
    }
}

impl Decode for F0Tree {
    open spec fn spec_decode(c: Cursor) -> Step<Seq<((u8, u8, u16, CstValView), Seq<Seq<char>>)>> {
        seq_spec::<Tree>(c)
    }

    proof fn lemma_decode_moves(c: Cursor) {
        Vec::<Tree>::lemma_decode_moves(c);
    }

    fn decode(d: &mut Deserializer<'_>) -> (r: Result<F0Tree, Error>) {
        match d.parse_seq() {
            Ok(v) => Ok(F0Tree(v)),
            Err(e) => Err(e),
        }
    }
}

/// The body of a voice. `f0_mean` and `f0_stddev` hold IEEE 754 bit
/// patterns of single-precision numbers.
#[derive(Debug, PartialEq)]
pub struct Body {
    pub db_types: Vec<String>,
    pub num_types: i32,
    pub sample_rate: i32,
    pub f0_mean: u32,
    pub f0_stddev: u32,
    pub f0_trees: Vec<F0Tree>,
}

/// The model of [`Body`].
pub struct BodyView {
    pub db_types: Seq<Seq<char>>,
    pub num_types: i32,
    pub sample_rate: i32,
    pub f0_mean: u32,
    pub f0_stddev: u32,
    pub f0_trees: Seq<Seq<((u8, u8, u16, CstValView), Seq<Seq<char>>)>>,
}

impl DeepView for Body {
    type V = BodyView;

    open spec fn deep_view(&self) -> BodyView {
        BodyView {
            db_types: self.db_types.deep_view(),
            num_types: self.num_types,
            sample_rate: self.sample_rate,
            f0_mean: self.f0_mean,
            f0_stddev: self.f0_stddev,
            f0_trees: self.f0_trees.deep_view(),
        }
    }
}

/// The fields of the body that come before its F0 trees: the types as a
/// dynamic sequence, then four raw numbers.
pub open spec fn body_head_spec(c: Cursor) -> Step<(Seq<Seq<char>>, i32, i32, u32, u32)> {
    match seq_spec::<String>(c) {
        Err(e) => Err(e),
        Ok((db_types, c1)) => match i32_spec(c1) {
            Err(e) => Err(e),
            Ok((num_types, c2)) => match i32_spec(c2) {
                Err(e) => Err(e),
                Ok((sample_rate, c3)) => match word_spec(c3) {
                    Err(e) => Err(e),
                    Ok((f0_mean, c4)) => match word_spec(c4) {
                        Err(e) => Err(e),
                        Ok((f0_stddev, c5)) => Ok(
                            ((db_types, num_types, sample_rate, f0_mean, f0_stddev), c5),
                        ),
                    },
                },
            },
        },
    }
}

/// The body, given how many F0 models the header announced: its leading
/// fields, then exactly `num_f0_models` F0 trees with no count of their own
/// in the stream.
pub open spec fn body_spec(c: Cursor, num_f0_models: u32) -> Step<BodyView> {
    match body_head_spec(c) {
        Err(e) => Err(e),
        Ok(((db_types, num_types, sample_rate, f0_mean, f0_stddev), c5)) => match items_spec::<
            F0Tree,
        >(c5, num_f0_models as nat) {
            Err(e) => Err(e),
            Ok((f0_trees, c6)) => Ok(
                (BodyView { db_types, num_types, sample_rate, f0_mean, f0_stddev, f0_trees }, c6),
            ),
        },
    }
}

/// A body read that succeeds moves forward.
pub proof fn lemma_body_moves(c: Cursor, num_f0_models: u32)
    ensures
        moved_forward(c, body_spec(c, num_f0_models)),
{
    Vec::<String>::lemma_decode_moves(c);
    if let Ok((_, c5)) = body_head_spec(c) {
        lemma_items_moves::<F0Tree>(c5, num_f0_models as nat);
    }
}

impl Body {
    /// Decodes a body whose F0 tree count comes from `header`, which must
    /// have been decoded first.
    pub fn decode_with(d: &mut Deserializer<'_>, header: &Header) -> (r: Result<Body, Error>)
        ensures
            decoded(r, final(d)@, body_spec(old(d)@, header.features.num_f0_models)),
            kept(old(d)@, final(d)@),
    {
        let db_types = match d.parse_seq() {
            Ok(v) => v,
            Err(e) => return Err(e),
        };
        let num_types = match d.parse_i32() {
            Ok(v) => v,
            Err(e) => return Err(e),
        };
        let sample_rate = match d.parse_i32() {
            Ok(v) => v,
            Err(e) => return Err(e),
        };
        let f0_mean = match d.parse_f32_bits() {
            Ok(v) => v,
            Err(e) => return Err(e),
        };
        let f0_stddev = match d.parse_f32_bits() {
            Ok(v) => v,
            Err(e) => return Err(e),
        };
        let f0_trees = match d.parse_fixed_seq(header.features.num_f0_models as usize) {
            Ok(v) => v,
            Err(e) => return Err(e),
        };
        Ok(Body { db_types, num_types, sample_rate, f0_mean, f0_stddev, f0_trees })
    }
}

/// A whole voice database: its header, then its body.
#[derive(Debug, PartialEq)]
pub struct TreeDb {
    header: Header,
    body: Body,
}

impl TreeDb {
    /// The header of the database.
    pub fn header(&self) -> (r: &Header)
        ensures
            r.deep_view() == self.deep_view().0,
    {
        &self.header
    }

    /// The body of the database.
    pub fn body(&self) -> (r: &Body)
        ensures
            r.deep_view() == self.deep_view().1,
    {
        &self.body
    }
}

impl DeepView for TreeDb {
    type V = ((FeaturesView, Seq<char>), BodyView);

    closed spec fn deep_view(&self) -> ((FeaturesView, Seq<char>), BodyView) {
        (self.header.deep_view(), self.body.deep_view())
    }
}

/// The header first, then the body sized by the header's F0 model count.
impl Decode for TreeDb {
    open spec fn spec_decode(c: Cursor) -> Step<((FeaturesView, Seq<char>), BodyView)> {
        match Header::spec_decode(c) {
            Err(e) => Err(e),
            Ok((h, c1)) => match body_spec(c1, h.0.num_f0_models) {
                Err(e) => Err(e),
                Ok((b, c2)) => Ok(((h, b), c2)),
            },
        }
    }

    proof fn lemma_decode_moves(c: Cursor) {
        Header::lemma_decode_moves(c);
        if let Ok((h, c1)) = Header::spec_decode(c) {
            lemma_body_moves(c1, h.0.num_f0_models);
        }
    }

    fn decode(d: &mut Deserializer<'_>) -> (r: Result<TreeDb, Error>) {
        let header = match Header::decode(d) {
            Ok(h) => h,
            Err(e) => return Err(e),
        };
        match Body::decode_with(d, &header) {
            Ok(body) => Ok(TreeDb { header, body }),
            Err(e) => Err(e),
        }
    }
}

} // verus!
