//! Providers for the unit value, for single values and for pairs.

use vstd::prelude::*;
use crate::params::{Identifier, Member, ParamsProjection, ParamsProvider, ValueProjector};
use crate::results::{CellView, FromResultValue, ResultSet, ResultsProvider};
use crate::types::{TypeDescriptor, TypeDescriptorProducer};

verus! {

/// Provider for a statement whose only parameter, or a query whose only
/// column, is one value of type `T`.
pub struct GeneralMetaProvider<T> {
    _marker: core::marker::PhantomData<T>,
}

impl<T> GeneralMetaProvider<T> {
    pub fn new() -> (provider: GeneralMetaProvider<T>) {
        GeneralMetaProvider { _marker: core::marker::PhantomData }
    }
}

impl<T> ParamsProvider<T> for GeneralMetaProvider<T> where
    T: TypeDescriptorProducer<T> + ValueProjector<T>,
 {
    open spec fn member_list(&self) -> Seq<Member> {
        seq![
            Member {
                descriptor: T::descriptor_for(T::default_capacity()),
                identifier: Identifier::Unnamed,
            },
        ]
    }

    open spec fn encodings(&self, params: &T) -> Seq<Option<Seq<u8>>> {
        seq![params.encoding()]
    }

    fn members(&self) -> (members: Vec<Member>) {
        let members = vec![Member::new(T::produce(), Identifier::Unnamed)];
        assert(members@ =~= self.member_list());
        members
    }

    fn project_values(&self, params: &T, projection: &mut ParamsProjection) {
        let p = &mut projection[0];
        params.project_value(p);
    }
}

/// A statement without parameters.
impl ParamsProvider<()> for () {
    open spec fn member_list(&self) -> Seq<Member> {
        Seq::empty()
    }

    open spec fn encodings(&self, params: &()) -> Seq<Option<Seq<u8>>> {
        Seq::empty()
    }

    fn members(&self) -> (members: Vec<Member>) {
        Vec::new()
    }

    fn project_values(&self, _params: &(), _projection: &mut ParamsProjection) {
    }
}

/// Provider for a statement with two parameters, or a query with two
/// columns.
pub struct GeneralPairProvider<T, V> {
    _m0: core::marker::PhantomData<T>,
    _m1: core::marker::PhantomData<V>,
}

impl<T, V> GeneralPairProvider<T, V> {
    pub fn new() -> (provider: GeneralPairProvider<T, V>) {
        GeneralPairProvider { _m0: core::marker::PhantomData, _m1: core::marker::PhantomData }
    }
}

impl<T, V> ParamsProvider<(T, V)> for GeneralPairProvider<T, V> where
    T: TypeDescriptorProducer<T> + ValueProjector<T>,
    V: TypeDescriptorProducer<V> + ValueProjector<V>,
 {
    open spec fn member_list(&self) -> Seq<Member> {
        seq![
            Member {
                descriptor: T::descriptor_for(T::default_capacity()),
                identifier: Identifier::Unnamed,
            },
            Member {
                descriptor: V::descriptor_for(V::default_capacity()),
                identifier: Identifier::Unnamed,
            },
        ]
    }

    open spec fn encodings(&self, params: &(T, V)) -> Seq<Option<Seq<u8>>> {
        seq![params.0.encoding(), params.1.encoding()]
    }

    fn members(&self) -> (members: Vec<Member>) {
        let members = vec![
            Member::new(T::produce(), Identifier::Unnamed),
            Member::new(V::produce(), Identifier::Unnamed),
        ];
        assert(members@ =~= self.member_list());
        members
    }

    fn project_values(&self, params: &(T, V), projection: &mut ParamsProjection) {
        {
            let p = &mut projection[0];
            params.0.project_value(p);
        }
        {
            let p = &mut projection[1];
            params.1.project_value(p);
        }
    }
}

impl<T> ResultsProvider<T> for GeneralMetaProvider<T> where
    T: TypeDescriptorProducer<T> + FromResultValue,
 {
    open spec fn descriptor_list(&self) -> Seq<TypeDescriptor> {
        seq![T::descriptor_for(T::default_capacity())]
    }

    open spec fn decodable(&self, row: Seq<CellView>) -> bool {
        row.len() == 1 && T::readable(row[0])
    }

    open spec fn decodes(&self, row: Seq<CellView>, result: T) -> bool {
        T::decodes(row[0], result)
    }

    fn sql_descriptors(&self) -> (descriptors: Vec<TypeDescriptor>) {
        let descriptors = vec![T::produce()];
        assert(descriptors@ =~= self.descriptor_list());
        descriptors
    }

    fn accepts(&self, rs: &ResultSet) -> (ok: bool) {
        rs.len() == 1 && T::can_read(&rs[0])
    }

    fn gen_result(&self, rs: ResultSet) -> (result: T) {
        T::from_result(&rs[0])
    }
}

/// A query without columns.
impl ResultsProvider<()> for () {
    open spec fn descriptor_list(&self) -> Seq<TypeDescriptor> {
        Seq::empty()
    }

    open spec fn decodable(&self, row: Seq<CellView>) -> bool {
        row.len() == 0
    }

    open spec fn decodes(&self, row: Seq<CellView>, result: ()) -> bool {
        true
    }

    fn sql_descriptors(&self) -> (descriptors: Vec<TypeDescriptor>) {
        Vec::new()
    }

    fn accepts(&self, rs: &ResultSet) -> (ok: bool) {
        rs.len() == 0
    }

    fn gen_result(&self, rs: ResultSet) -> (result: ()) {
    }
}

impl<T, V> ResultsProvider<(T, V)> for GeneralPairProvider<T, V> where
    T: TypeDescriptorProducer<T> + FromResultValue,
    V: TypeDescriptorProducer<V> + FromResultValue,
 {
    open spec fn descriptor_list(&self) -> Seq<TypeDescriptor> {
        seq![T::descriptor_for(T::default_capacity()), V::descriptor_for(V::default_capacity())]
    }

    open spec fn decodable(&self, row: Seq<CellView>) -> bool {
        row.len() == 2 && T::readable(row[0]) && V::readable(row[1])
    }

    open spec fn decodes(&self, row: Seq<CellView>, result: (T, V)) -> bool {
        T::decodes(row[0], result.0) && V::decodes(row[1], result.1)
    }

    fn sql_descriptors(&self) -> (descriptors: Vec<TypeDescriptor>) {
        let descriptors = vec![T::produce(), V::produce()];
        assert(descriptors@ =~= self.descriptor_list());
        descriptors
    }

    fn accepts(&self, rs: &ResultSet) -> (ok: bool) {
        rs.len() == 2 && T::can_read(&rs[0]) && V::can_read(&rs[1])
    }

    fn gen_result(&self, rs: ResultSet) -> (result: (T, V)) {
        (T::from_result(&rs[0]), V::from_result(&rs[1]))
    }
}

} // verus!
