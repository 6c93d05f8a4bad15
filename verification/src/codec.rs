//! The flat wire form of a metadata tree and its re-parser.
//!
//! A tree is serialized into a sequence of tokens: a begin marker, a
//! tagged optional typename, the field count followed by the fields
//! (name, tag, payload), and the child count followed by the children
//! (name, then the child's own serialization).  Parsing is the exact
//! inverse: the round-trip law at the bottom proves that re-parsing a
//! serialized tree yields the tree unchanged.

use vstd::prelude::*;

use crate::meta::{MetaField, MetaFieldV, MetaMember, MetaMemberV, MetaValue, MetaValueV, ObjectMeta, ObjectMetaV};
use crate::status::{StatusCode, VineyardError};

verus! {

/// One token of the wire form.
#[derive(Debug)]
pub enum MetaToken {
    Begin,
    Num(u64),
    Text(String),
}

/// The model of a token.
#[verifier::ext_equal]
pub enum TokenV {
    Begin,
    Num(u64),
    Text(Seq<char>),
}

pub open spec fn token_view(t: MetaToken) -> TokenV {
    match t {
        MetaToken::Begin => TokenV::Begin,
        MetaToken::Num(u) => TokenV::Num(u),
        MetaToken::Text(s) => TokenV::Text(s@),
    }
}

pub open spec fn tokens_view(s: Seq<MetaToken>) -> Seq<TokenV> {
    s.map_values(|t: MetaToken| token_view(t))
}

/// The wire form of the optional typename.
pub open spec fn ser_tn(t: Option<Seq<char>>) -> Seq<TokenV> {
    match t {
        None => seq![TokenV::Num(0)],
        Some(s) => seq![TokenV::Num(1), TokenV::Text(s)],
    }
}

/// The wire form of one field.
pub open spec fn ser_field(f: MetaFieldV) -> Seq<TokenV> {
    match f.value {
        MetaValueV::U64(u) => seq![TokenV::Text(f.name), TokenV::Num(0), TokenV::Num(u)],
        MetaValueV::Text(s) => seq![TokenV::Text(f.name), TokenV::Num(1), TokenV::Text(s)],
    }
}

/// The wire form of the fields from index `i` on.
pub open spec fn ser_fields_from(fs: Seq<MetaFieldV>, i: int) -> Seq<TokenV>
    decreases fs.len() - i,
{
    if i < 0 || i >= fs.len() {
        Seq::empty()
    } else {
        ser_field(fs[i]) + ser_fields_from(fs, i + 1)
    }
}

/// The wire form of a whole tree.
pub open spec fn ser_node(v: ObjectMetaV) -> Seq<TokenV>
    decreases v, 2int, 0int,
{
    seq![TokenV::Begin] + ser_tn(v.typename) + seq![TokenV::Num(v.fields.len() as u64)]
        + ser_fields_from(v.fields, 0) + seq![TokenV::Num(v.members.len() as u64)]
        + ser_members_from(v, 0)
}

/// The wire form of the children from index `i` on.
pub open spec fn ser_members_from(v: ObjectMetaV, i: int) -> Seq<TokenV>
    decreases v, 1int, v.members.len() - i,
{
    if i < 0 || i >= v.members.len() {
        Seq::empty()
    } else {
        seq![TokenV::Text(v.members[i].name)] + ser_node(v.members[i].meta) + ser_members_from(
            v,
            i + 1,
        )
    }
}

/// Serializes one tree into the given token vector.
fn ser_into(m: &ObjectMeta, out: &mut Vec<MetaToken>)
    ensures
        tokens_view(final(out)@) == tokens_view(old(out)@) + ser_node(m@),
    decreases *m,
{
    let ghost base0 = tokens_view(out@);
    out.push(MetaToken::Begin);
    match &m.typename {
        None => {
            out.push(MetaToken::Num(0));
        },
        Some(t) => {
            out.push(MetaToken::Num(1));
            out.push(MetaToken::Text(t.clone()));
        },
    }
    out.push(MetaToken::Num(m.fields.len() as u64));
    proof {
        assert(tokens_view(out@) =~= base0 + seq![TokenV::Begin] + ser_tn(m@.typename) + seq![
            TokenV::Num(m@.fields.len() as u64),
        ]);
    }
    let ghost base1 = tokens_view(out@);
    let nf = m.fields.len();
    let mut i: usize = 0;
    while i < nf
        invariant
            nf == m.fields@.len(),
            m@.fields.len() == nf,
            i <= nf,
            tokens_view(out@) =~= base1 + ser_fields_from(m@.fields, 0).take(
                ser_fields_from(m@.fields, 0).len() - ser_fields_from(m@.fields, i as int).len(),
            ),
            ser_fields_from(m@.fields, 0) =~= tokens_view(out@).skip(base1.len() as int)
                + ser_fields_from(m@.fields, i as int),
        decreases nf - i,
    {
        let f = &m.fields[i];
        let ghost prev = tokens_view(out@);
        match &f.value {
            MetaValue::U64(u) => {
                out.push(MetaToken::Text(f.name.clone()));
                out.push(MetaToken::Num(0));
                out.push(MetaToken::Num(*u));
            },
            MetaValue::Text(s) => {
                out.push(MetaToken::Text(f.name.clone()));
                out.push(MetaToken::Num(1));
                out.push(MetaToken::Text(s.clone()));
            },
        }
        proof {
            assert(m@.fields[i as int] == crate::meta::field_view(m.fields@[i as int]));
            assert(tokens_view(out@) =~= prev + ser_field(m@.fields[i as int]));
            assert(ser_fields_from(m@.fields, i as int) =~= ser_field(m@.fields[i as int])
                + ser_fields_from(m@.fields, i as int + 1));
            assert(ser_fields_from(m@.fields, 0) =~= tokens_view(out@).skip(base1.len() as int)
                + ser_fields_from(m@.fields, i as int + 1));
            assert(tokens_view(out@) =~= base1 + ser_fields_from(m@.fields, 0).take(
                ser_fields_from(m@.fields, 0).len() - ser_fields_from(
                    m@.fields,
                    i as int + 1,
                ).len(),
            ));
        }
        i = i + 1;
    }
    proof {
        assert(ser_fields_from(m@.fields, nf as int) =~= Seq::<TokenV>::empty());
        assert(tokens_view(out@) =~= base1 + ser_fields_from(m@.fields, 0));
    }
    out.push(MetaToken::Num(m.members.len() as u64));
    proof {
        assert(tokens_view(out@) =~= base1 + ser_fields_from(m@.fields, 0) + seq![
            TokenV::Num(m@.members.len() as u64),
        ]);
    }
    let ghost base2 = tokens_view(out@);
    let nm = m.members.len();
    let mut j: usize = 0;
    while j < nm
        invariant
            nm == m.members@.len(),
            m@.members.len() == nm,
            j <= nm,
            base2.len() <= tokens_view(out@).len(),
            ser_members_from(m@, 0) =~= tokens_view(out@).skip(base2.len() as int)
                + ser_members_from(m@, j as int),
            tokens_view(out@).take(base2.len() as int) =~= base2,
        decreases nm - j,
    {
        let mm = &m.members[j];
        let ghost prev = tokens_view(out@);
        out.push(MetaToken::Text(mm.name.clone()));
        ser_into(&m.members[j].meta, out);
        proof {
            assert(m@.members[j as int].name == m.members@[j as int].name@);
            assert(m@.members[j as int].meta == (&m.members[j as int].meta)@);
            assert(tokens_view(out@) =~= prev + seq![TokenV::Text(m@.members[j as int].name)]
                + ser_node(m@.members[j as int].meta));
            assert(ser_members_from(m@, j as int) =~= seq![
                TokenV::Text(m@.members[j as int].name),
            ] + ser_node(m@.members[j as int].meta) + ser_members_from(m@, j as int + 1));
            assert(tokens_view(out@).skip(base2.len() as int) =~= prev.skip(base2.len() as int)
                + seq![TokenV::Text(m@.members[j as int].name)] + ser_node(
                m@.members[j as int].meta,
            ));
            assert(ser_members_from(m@, 0) =~= tokens_view(out@).skip(base2.len() as int)
                + ser_members_from(m@, j as int + 1));
            assert(tokens_view(out@).take(base2.len() as int) =~= base2);
        }
        j = j + 1;
    }
    proof {
        assert(ser_members_from(m@, nm as int) =~= Seq::<TokenV>::empty());
        assert(tokens_view(out@) =~= tokens_view(out@).take(base2.len() as int) + tokens_view(
            out@,
        ).skip(base2.len() as int));
        assert(tokens_view(out@) =~= base2 + ser_members_from(m@, 0));
        assert(tokens_view(out@) =~= base0 + ser_node(m@));
    }
}

/// The wire form of a tree.
pub fn serialize_meta(m: &ObjectMeta) -> (out: Vec<MetaToken>)
    ensures
        tokens_view(out@) == ser_node(m@),
{
    let mut out: Vec<MetaToken> = Vec::new();
    proof {
        assert(tokens_view(out@) =~= Seq::<TokenV>::empty());
    }
    ser_into(m, &mut out);
    proof {
        assert(tokens_view(out@) =~= ser_node(m@));
    }
    out
}


/// Parses one field list of known count from the token stream.
pub open spec fn sp_parse_fields(ts: Seq<TokenV>, pos: int, k: int) -> Option<
    (Seq<MetaFieldV>, int),
>
    decreases k,
{
    if k <= 0 {
        Some((Seq::empty(), pos))
    } else if 0 <= pos && pos + 3 <= ts.len() {
        match (ts[pos], ts[pos + 1]) {
            (TokenV::Text(name), TokenV::Num(tag)) => if tag == 0 {
                match ts[pos + 2] {
                    TokenV::Num(u) => match sp_parse_fields(ts, pos + 3, k - 1) {
                        Some((fs, p)) => Some(
                            (seq![MetaFieldV { name, value: MetaValueV::U64(u) }] + fs, p),
                        ),
                        None => None,
                    },
                    _ => None,
                }
            } else if tag == 1 {
                match ts[pos + 2] {
                    TokenV::Text(sv) => match sp_parse_fields(ts, pos + 3, k - 1) {
                        Some((fs, p)) => Some(
                            (seq![MetaFieldV { name, value: MetaValueV::Text(sv) }] + fs, p),
                        ),
                        None => None,
                    },
                    _ => None,
                }
            } else {
                None
            },
            _ => None,
        }
    } else {
        None
    }
}

/// Parses one tree from the token stream.  The fuel bounds the nesting
/// that the parser will follow.
pub open spec fn sp_parse_node(ts: Seq<TokenV>, pos: int, fuel: nat) -> Option<
    (ObjectMetaV, int),
>
    decreases fuel, 0int, 0int,
{
    if fuel == 0 {
        None
    } else if !(0 <= pos && pos + 2 <= ts.len() && ts[pos] == TokenV::Begin) {
        None
    } else {
        let tnres: Option<(Option<Seq<char>>, int)> = match ts[pos + 1] {
            TokenV::Num(tag) => if tag == 0 {
                Some((None, pos + 2))
            } else if tag == 1 {
                if pos + 3 <= ts.len() {
                    match ts[pos + 2] {
                        TokenV::Text(sv) => Some((Some(sv), pos + 3)),
                        _ => None,
                    }
                } else {
                    None
                }
            } else {
                None
            },
            _ => None,
        };
        match tnres {
            None => None,
            Some((tn, p1)) => if p1 < ts.len() {
                match ts[p1] {
                    TokenV::Num(nf) => match sp_parse_fields(ts, p1 + 1, nf as int) {
                        None => None,
                        Some((fs, p2)) => if p2 < ts.len() {
                            match ts[p2] {
                                TokenV::Num(nm) => match sp_parse_members(
                                    ts,
                                    p2 + 1,
                                    nm as int,
                                    (fuel - 1) as nat,
                                ) {
                                    None => None,
                                    Some((ms, p3)) => Some(
                                        (ObjectMetaV { typename: tn, fields: fs, members: ms }, p3),
                                    ),
                                },
                                _ => None,
                            }
                        } else {
                            None
                        },
                    },
                    _ => None,
                }
            } else {
                None
            },
        }
    }
}

/// Parses one child list of known count from the token stream.
pub open spec fn sp_parse_members(ts: Seq<TokenV>, pos: int, k: int, fuel: nat) -> Option<
    (Seq<MetaMemberV>, int),
>
    decreases fuel, 1int, k,
{
    if k <= 0 {
        Some((Seq::empty(), pos))
    } else if 0 <= pos && pos + 1 <= ts.len() {
        match ts[pos] {
            TokenV::Text(name) => match sp_parse_node(ts, pos + 1, fuel) {
                None => None,
                Some((child, p)) => match sp_parse_members(ts, p, k - 1, fuel) {
                    None => None,
                    Some((ms, p2)) => Some((seq![MetaMemberV { name, meta: child }] + ms, p2)),
                },
            },
            _ => None,
        }
    } else {
        None
    }
}

/// Whether every count in the tree fits the wire form's count token.
pub open spec fn spec_bounded(v: ObjectMetaV) -> bool
    decreases v, 1int, 0int,
{
    v.fields.len() <= u64::MAX && v.members.len() <= u64::MAX && spec_bounded_members(v, 0)
}

pub open spec fn spec_bounded_members(v: ObjectMetaV, i: int) -> bool
    decreases v, 0int, v.members.len() - i,
{
    if i < 0 || i >= v.members.len() {
        true
    } else {
        spec_bounded(v.members[i].meta) && spec_bounded_members(v, i + 1)
    }
}

/// The number of nodes in a tree.
pub open spec fn node_count(v: ObjectMetaV) -> nat
    decreases v, 1int, 0int,
{
    1 + members_count(v, 0)
}

pub open spec fn members_count(v: ObjectMetaV, i: int) -> nat
    decreases v, 0int, v.members.len() - i,
{
    if i < 0 || i >= v.members.len() {
        0
    } else {
        node_count(v.members[i].meta) + members_count(v, i + 1)
    }
}

proof fn lemma_node_count_le_ser(v: ObjectMetaV)
    ensures
        node_count(v) <= ser_node(v).len(),
    decreases v, 1int, 0int,
{
    lemma_members_count_le_ser(v, 0);
}

proof fn lemma_members_count_le_ser(v: ObjectMetaV, i: int)
    ensures
        members_count(v, i) <= ser_members_from(v, i).len(),
    decreases v, 0int, v.members.len() - i,
{
    if 0 <= i < v.members.len() {
        lemma_node_count_le_ser(v.members[i].meta);
        lemma_members_count_le_ser(v, i + 1);
    }
}

proof fn lemma_fields_rt(ts: Seq<TokenV>, pos: int, fs: Seq<MetaFieldV>, i: int)
    requires
        0 <= i <= fs.len(),
        0 <= pos,
        pos + ser_fields_from(fs, i).len() <= ts.len(),
        ts.subrange(pos, pos + ser_fields_from(fs, i).len() as int) == ser_fields_from(fs, i),
    ensures
        sp_parse_fields(ts, pos, fs.len() - i) == Some(
            (fs.skip(i), pos + ser_fields_from(fs, i).len()),
        ),
    decreases fs.len() - i,
{
    let sfi = ser_fields_from(fs, i);
    if i == fs.len() {
        assert(sfi =~= Seq::<TokenV>::empty());
        assert(fs.skip(i) =~= Seq::<MetaFieldV>::empty());
    } else {
        let f = fs[i];
        let sf = ser_field(f);
        assert(sfi =~= sf + ser_fields_from(fs, i + 1));
        assert(sf.len() == 3);
        assert forall|q: int| 0 <= q < sfi.len() implies ts[pos + q] == sfi[q] by {
            assert(ts.subrange(pos, pos + sfi.len() as int)[q] == ts[pos + q]);
        }
        assert(ts[pos] == sfi[0]);
        assert(ts[pos + 1] == sfi[1]);
        assert(ts[pos + 2] == sfi[2]);
        let l2 = ser_fields_from(fs, i + 1);
        let sub2 = ts.subrange(pos + 3, pos + 3 + l2.len() as int);
        assert forall|q: int| 0 <= q < l2.len() implies sub2[q] == l2[q] by {
            assert(sub2[q] == ts[pos + 3 + q]);
            assert(ts[pos + 3 + q] == sfi[3 + q]);
            assert(sfi[3 + q] == l2[q]);
        }
        assert(sub2 =~= l2);
        lemma_fields_rt(ts, pos + 3, fs, i + 1);
        assert(fs.skip(i) =~= seq![f] + fs.skip(i + 1));
        match f.value {
            MetaValueV::U64(u) => {
                assert(ts[pos] == TokenV::Text(f.name));
                assert(ts[pos + 1] == TokenV::Num(0));
                assert(ts[pos + 2] == TokenV::Num(u));
                assert(MetaFieldV { name: f.name, value: MetaValueV::U64(u) } == f);
            },
            MetaValueV::Text(sv) => {
                assert(ts[pos] == TokenV::Text(f.name));
                assert(ts[pos + 1] == TokenV::Num(1));
                assert(ts[pos + 2] == TokenV::Text(sv));
                assert(MetaFieldV { name: f.name, value: MetaValueV::Text(sv) } == f);
            },
        }
        assert(sp_parse_fields(ts, pos, fs.len() - i) == Some((fs.skip(i), pos + sfi.len())));
    }
}

proof fn lemma_node_rt(ts: Seq<TokenV>, pos: int, v: ObjectMetaV, fuel: nat)
    requires
        0 <= pos,
        pos + ser_node(v).len() <= ts.len(),
        ts.subrange(pos, pos + ser_node(v).len() as int) == ser_node(v),
        fuel >= node_count(v),
        spec_bounded(v),
    ensures
        sp_parse_node(ts, pos, fuel) == Some((v, pos + ser_node(v).len())),
    decreases v, 1int, 0int,
{
    let total = ser_node(v);
    let stn = ser_tn(v.typename);
    let sfl = ser_fields_from(v.fields, 0);
    let sml = ser_members_from(v, 0);
    assert forall|q: int| 0 <= q < total.len() implies ts[pos + q] == total[q] by {
        assert(ts.subrange(pos, pos + total.len() as int)[q] == ts[pos + q]);
    }
    let tlen = stn.len() as int;
    assert(total[0] == TokenV::Begin);
    let p1 = pos + 1 + tlen;
    match v.typename {
        None => {
            assert(total[1] == TokenV::Num(0));
        },
        Some(tnm) => {
            assert(total[1] == TokenV::Num(1));
            assert(total[2] == TokenV::Text(tnm));
        },
    }
    assert(total[1 + tlen] == TokenV::Num(v.fields.len() as u64));
    assert forall|q: int| 0 <= q < sfl.len() implies ts[p1 + 1 + q] == sfl[q] by {
        assert(total[1 + tlen + 1 + q] == sfl[q]);
    }
    assert(ts.subrange(p1 + 1, p1 + 1 + sfl.len() as int) =~= sfl);
    lemma_fields_rt(ts, p1 + 1, v.fields, 0);
    assert(v.fields.skip(0) =~= v.fields);
    assert((v.fields.len() as u64) as int == v.fields.len());
    let p2 = p1 + 1 + sfl.len() as int;
    assert(total[1 + tlen + 1 + sfl.len()] == TokenV::Num(v.members.len() as u64));
    assert forall|q: int| 0 <= q < sml.len() implies ts[p2 + 1 + q] == sml[q] by {
        assert(total[1 + tlen + 1 + sfl.len() + 1 + q] == sml[q]);
    }
    assert(ts.subrange(p2 + 1, p2 + 1 + sml.len() as int) =~= sml);
    lemma_members_rt(ts, p2 + 1, v, 0, (fuel - 1) as nat);
    assert(v.members.skip(0) =~= v.members);
    assert((v.members.len() as u64) as int == v.members.len());
    assert(ObjectMetaV { typename: v.typename, fields: v.fields, members: v.members } == v);
    assert(sp_parse_node(ts, pos, fuel) == Some((v, pos + total.len())));
}

proof fn lemma_members_rt(ts: Seq<TokenV>, pos: int, v: ObjectMetaV, i: int, fuel: nat)
    requires
        0 <= i <= v.members.len(),
        0 <= pos,
        pos + ser_members_from(v, i).len() <= ts.len(),
        ts.subrange(pos, pos + ser_members_from(v, i).len() as int) == ser_members_from(v, i),
        fuel >= members_count(v, i),
        spec_bounded_members(v, i),
    ensures
        sp_parse_members(ts, pos, v.members.len() - i, fuel) == Some(
            (v.members.skip(i), pos + ser_members_from(v, i).len()),
        ),
    decreases v, 0int, v.members.len() - i,
{
    let smi = ser_members_from(v, i);
    if i == v.members.len() {
        assert(smi =~= Seq::<TokenV>::empty());
        assert(v.members.skip(i) =~= Seq::<MetaMemberV>::empty());
    } else {
        let child = v.members[i].meta;
        let sc = ser_node(child);
        assert(smi =~= seq![TokenV::Text(v.members[i].name)] + sc + ser_members_from(v, i + 1));
        assert forall|q: int| 0 <= q < smi.len() implies ts[pos + q] == smi[q] by {
            assert(ts.subrange(pos, pos + smi.len() as int)[q] == ts[pos + q]);
        }
        assert(smi[0] == TokenV::Text(v.members[i].name));
        assert(ts[pos] == TokenV::Text(v.members[i].name));
        assert forall|q: int| 0 <= q < sc.len() implies ts[pos + 1 + q] == sc[q] by {
            assert(smi[1 + q] == sc[q]);
        }
        assert(ts.subrange(pos + 1, pos + 1 + sc.len() as int) =~= sc);
        lemma_node_rt(ts, pos + 1, child, fuel);
        let p = pos + 1 + sc.len() as int;
        let m2 = ser_members_from(v, i + 1);
        let sub3 = ts.subrange(p, p + m2.len() as int);
        assert forall|q: int| 0 <= q < m2.len() implies sub3[q] == m2[q] by {
            assert(sub3[q] == ts[p + q]);
            assert(ts[p + q] == smi[1 + sc.len() + q]);
            assert(smi[1 + sc.len() + q] == m2[q]);
        }
        assert(sub3 =~= m2);
        assert(ts.subrange(p, p + ser_members_from(v, i + 1).len() as int) =~= ser_members_from(
            v,
            i + 1,
        ));
        lemma_members_rt(ts, p, v, i + 1, fuel);
        assert(v.members.skip(i) =~= seq![v.members[i]] + v.members.skip(i + 1));
        assert(MetaMemberV { name: v.members[i].name, meta: child } == v.members[i]);
        assert(sp_parse_members(ts, pos, v.members.len() - i, fuel) == Some(
            (v.members.skip(i), pos + smi.len()),
        ));
    }
}

/// The round-trip law: re-parsing a serialized tree, with fuel for its
/// node count, yields the tree unchanged and consumes the whole stream.
pub proof fn lemma_meta_round_trip(v: ObjectMetaV, fuel: nat)
    requires
        spec_bounded(v),
        fuel >= node_count(v),
    ensures
        sp_parse_node(ser_node(v), 0, fuel) == Some((v, ser_node(v).len() as int)),
{
    let ts = ser_node(v);
    assert(ts.subrange(0, ts.len() as int) =~= ts);
    lemma_node_rt(ts, 0, v, fuel);
}


/// The model of a parsed field list.
pub open spec fn fields_exec_view(s: Seq<MetaField>) -> Seq<MetaFieldV> {
    s.map_values(|f: MetaField| crate::meta::field_view(f))
}

/// The model of a parsed child list.
pub open spec fn members_exec_view(s: Seq<MetaMember>) -> Seq<MetaMemberV> {
    s.map_values(
        |mm: MetaMember| MetaMemberV { name: mm.name@, meta: crate::meta::meta_view(mm.meta) },
    )
}

fn parse_fields_at(tokens: &Vec<MetaToken>, pos: usize, k: u64) -> (r: Option<
    (Vec<MetaField>, usize),
>)
    requires
        pos <= tokens@.len(),
    ensures
        match sp_parse_fields(tokens_view(tokens@), pos as int, k as int) {
            Some((fs, p)) => r matches Some(x) && fields_exec_view(x.0@) == fs && x.1 == p && x.1
                <= tokens@.len(),
            None => r is None,
        },
    decreases k,
{
    let ghost ts = tokens_view(tokens@);
    if k == 0 {
        let vf: Vec<MetaField> = Vec::new();
        proof {
            assert(fields_exec_view(vf@) =~= Seq::<MetaFieldV>::empty());
        }
        return Some((vf, pos));
    }
    if tokens.len() - pos < 3 {
        return None;
    }
    proof {
        assert(ts[pos as int] == token_view(tokens@[pos as int]));
        assert(ts[pos as int + 1] == token_view(tokens@[pos as int + 1]));
        assert(ts[pos as int + 2] == token_view(tokens@[pos as int + 2]));
    }
    match (&tokens[pos], &tokens[pos + 1]) {
        (MetaToken::Text(name), MetaToken::Num(tag)) => {
            if *tag == 0 {
                match &tokens[pos + 2] {
                    MetaToken::Num(u) => {
                        match parse_fields_at(tokens, pos + 3, k - 1) {
                            Some((vf0, q)) => {
                                let mut vf = vf0;
                                let ghost before = vf@;
                                vf.insert(
                                    0,
                                    MetaField { name: name.clone(), value: MetaValue::U64(*u) },
                                );
                                proof {
                                    assert(fields_exec_view(vf@) =~= seq![
                                        MetaFieldV { name: name@, value: MetaValueV::U64(*u) },
                                    ] + fields_exec_view(before));
                                }
                                Some((vf, q))
                            },
                            None => None,
                        }
                    },
                    _ => None,
                }
            } else if *tag == 1 {
                match &tokens[pos + 2] {
                    MetaToken::Text(sv) => {
                        match parse_fields_at(tokens, pos + 3, k - 1) {
                            Some((vf0, q)) => {
                                let mut vf = vf0;
                                let ghost before = vf@;
                                vf.insert(
                                    0,
                                    MetaField {
                                        name: name.clone(),
                                        value: MetaValue::Text(sv.clone()),
                                    },
                                );
                                proof {
                                    assert(fields_exec_view(vf@) =~= seq![
                                        MetaFieldV { name: name@, value: MetaValueV::Text(sv@) },
                                    ] + fields_exec_view(before));
                                }
                                Some((vf, q))
                            },
                            None => None,
                        }
                    },
                    _ => None,
                }
            } else {
                None
            }
        },
        _ => None,
    }
}

fn parse_node_at(tokens: &Vec<MetaToken>, pos: usize, fuel: u64) -> (r: Option<
    (ObjectMeta, usize),
>)
    requires
        pos <= tokens@.len(),
    ensures
        match sp_parse_node(tokens_view(tokens@), pos as int, fuel as nat) {
            Some((v, p)) => r matches Some(x) && x.0@ == v && x.1 == p && x.1 <= tokens@.len(),
            None => r is None,
        },
    decreases fuel, 0int, 0int,
{
    let ghost ts = tokens_view(tokens@);
    if fuel == 0 {
        return None;
    }
    if tokens.len() - pos < 2 {
        return None;
    }
    proof {
        assert(ts[pos as int] == token_view(tokens@[pos as int]));
        assert(ts[pos as int + 1] == token_view(tokens@[pos as int + 1]));
    }
    match &tokens[pos] {
        MetaToken::Begin => {},
        _ => {
            return None;
        },
    }
    let (tn, p1): (Option<String>, usize) = match &tokens[pos + 1] {
        MetaToken::Num(tag) => {
            if *tag == 0 {
                (None, pos + 2)
            } else if *tag == 1 {
                if tokens.len() - pos < 3 {
                    return None;
                }
                proof {
                    assert(ts[pos as int + 2] == token_view(tokens@[pos as int + 2]));
                }
                match &tokens[pos + 2] {
                    MetaToken::Text(sv) => (Some(sv.clone()), pos + 3),
                    _ => {
                        return None;
                    },
                }
            } else {
                return None;
            }
        },
        _ => {
            return None;
        },
    };
    if p1 >= tokens.len() {
        return None;
    }
    proof {
        assert(ts[p1 as int] == token_view(tokens@[p1 as int]));
    }
    let nf = match &tokens[p1] {
        MetaToken::Num(n) => *n,
        _ => {
            return None;
        },
    };
    let (vf, p2) = match parse_fields_at(tokens, p1 + 1, nf) {
        Some(x) => x,
        None => {
            return None;
        },
    };
    if p2 >= tokens.len() {
        return None;
    }
    proof {
        assert(ts[p2 as int] == token_view(tokens@[p2 as int]));
    }
    let nm = match &tokens[p2] {
        MetaToken::Num(n) => *n,
        _ => {
            return None;
        },
    };
    let (vm, p3) = match parse_members_at(tokens, p2 + 1, nm, fuel - 1) {
        Some(x) => x,
        None => {
            return None;
        },
    };
    let m = ObjectMeta { typename: tn, fields: vf, members: vm };
    proof {
        assert(m@.fields =~= fields_exec_view(m.fields@));
        assert(m@.members =~= members_exec_view(m.members@));
        assert(m@ =~~= sp_parse_node(ts, pos as int, fuel as nat)->Some_0.0);
    }
    Some((m, p3))
}

fn parse_members_at(tokens: &Vec<MetaToken>, pos: usize, k: u64, fuel: u64) -> (r: Option<
    (Vec<MetaMember>, usize),
>)
    requires
        pos <= tokens@.len(),
    ensures
        match sp_parse_members(tokens_view(tokens@), pos as int, k as int, fuel as nat) {
            Some((ms, p)) => r matches Some(x) && members_exec_view(x.0@) == ms && x.1 == p && x.1
                <= tokens@.len(),
            None => r is None,
        },
    decreases fuel, 1int, k,
{
    let ghost ts = tokens_view(tokens@);
    if k == 0 {
        let vm: Vec<MetaMember> = Vec::new();
        proof {
            assert(members_exec_view(vm@) =~= Seq::<MetaMemberV>::empty());
        }
        return Some((vm, pos));
    }
    if tokens.len() - pos < 1 {
        return None;
    }
    proof {
        assert(ts[pos as int] == token_view(tokens@[pos as int]));
    }
    match &tokens[pos] {
        MetaToken::Text(name) => {
            match parse_node_at(tokens, pos + 1, fuel) {
                Some((child, p)) => {
                    match parse_members_at(tokens, p, k - 1, fuel) {
                        Some((vm0, q)) => {
                            let mut vm = vm0;
                            let ghost before = vm@;
                            let ghost childv = child@;
                            vm.insert(0, MetaMember { name: name.clone(), meta: child });
                            proof {
                                assert(members_exec_view(vm@) =~= seq![
                                    MetaMemberV { name: name@, meta: childv },
                                ] + members_exec_view(before));
                            }
                            Some((vm, q))
                        },
                        None => None,
                    }
                },
                None => None,
            }
        },
        _ => None,
    }
}

/// Re-parses a token stream into a metadata tree, failing with
/// `MetaTreeInvalid` on a malformed or incompletely consumed stream.
pub fn parse_meta(tokens: &Vec<MetaToken>) -> (r: Result<ObjectMeta, VineyardError>)
    ensures
        sp_parse_node(tokens_view(tokens@), 0, u64::MAX as nat) matches Some((v, p)) ==> ((p
            == tokens@.len() ==> (r matches Ok(m) && m@ == v)) && (p != tokens@.len() ==> (
        r matches Err(e) && e.code == StatusCode::MetaTreeInvalid && e.message@
            == "trailing tokens after the metadata tree"@))),
        sp_parse_node(tokens_view(tokens@), 0, u64::MAX as nat) is None ==> (r matches Err(e)
            && e.code == StatusCode::MetaTreeInvalid && e.message@
            == "invalid metadata token stream"@),
{
    match parse_node_at(tokens, 0, u64::MAX) {
        Some((m, q)) => {
            if q == tokens.len() {
                Ok(m)
            } else {
                Err(VineyardError::meta_tree_invalid("trailing tokens after the metadata tree"))
            }
        },
        None => Err(VineyardError::meta_tree_invalid("invalid metadata token stream")),
    }
}

/// With the parser's own fuel, re-parsing a serialized tree yields the
/// tree unchanged and consumes the whole stream.
pub proof fn lemma_parse_of_serialized(v: ObjectMetaV)
    requires
        spec_bounded(v),
        ser_node(v).len() <= u64::MAX,
    ensures
        sp_parse_node(ser_node(v), 0, u64::MAX as nat) == Some((v, ser_node(v).len() as int)),
{
    lemma_node_count_le_ser(v);
    lemma_meta_round_trip(v, u64::MAX as nat);
}

} // verus!
