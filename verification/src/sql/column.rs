//! Column definitions, as statements like [`StatementCreateTable`] take them.
//!
//! [`StatementCreateTable`]: crate::sql::StatementCreateTable

use vstd::prelude::*;

use crate::sql::error::Error;
use crate::sql::serialize::ToSql;
use crate::sql::types::Type;
use crate::sql::value::{Value, ValueView};

verus! {

/// What a [`ColumnDef`] holds, as mathematical data.
pub struct ColumnDefView {
    /// The name of the column.
    pub name: Seq<char>,
    /// The datatype of the column.
    pub ty: Type,
    /// Whether this column auto-increments.
    pub auto_increment: bool,
    /// Whether this column refuses NULL.
    pub not_null: bool,
    /// The value that new rows have in this column, if any.
    pub default: Option<ValueView>,
}

impl ColumnDefView {
    /// The invariant of every column definition: the type of its default
    /// value, where it has one, is compatible with its declared type.
    pub open spec fn wf(self) -> bool {
        self.default matches Some(value) ==> value.type_of().compatible(self.ty)
    }

    /// This definition with its type changed to `ty`.
    pub open spec fn with_ty(self, ty: Type) -> ColumnDefView {
        ColumnDefView { ty, ..self }
    }

    /// This definition with its default value changed to `default`.
    pub open spec fn with_default(self, default: Option<ValueView>) -> ColumnDefView {
        ColumnDefView { default, ..self }
    }

    /// The text that follows the name and type of the column: its options,
    /// in their fixed order. `default` is the literal of the default value.
    pub open spec fn options_sql(self, default: Option<Seq<char>>) -> Seq<char> {
        (if self.auto_increment {
            " AUTO_INCREMENT"@
        } else {
            Seq::empty()
        }) + (if self.not_null {
            " NOT NULL"@
        } else {
            Seq::empty()
        }) + (match default {
            Some(literal) => " DEFAULT "@ + literal,
            None => Seq::empty(),
        })
    }

    /// The SQL text of the column definition: the name between double
    /// quotes, the type, then ` AUTO_INCREMENT` if set, ` NOT NULL` if set,
    /// and ` DEFAULT ` with the literal of the default value if there is
    /// one. `None` where the default value has no literal.
    pub open spec fn sql(self) -> Option<Seq<char>> {
        match self.default {
            Some(value) => match value.sql() {
                Some(literal) => Some(
                    "\""@ + self.name + "\" "@ + self.ty.sql() + self.options_sql(Some(literal)),
                ),
                None => None,
            },
            None => Some("\""@ + self.name + "\" "@ + self.ty.sql() + self.options_sql(None)),
        }
    }
}

/// A column definition has an SQL text unless its default value is a binary
/// large object; and only a column of the type `Blob` of that very size can
/// have such a default value.
pub proof fn lemma_column_without_sql(column: ColumnDefView)
    requires
        column.wf(),
    ensures
        column.sql() is None <==> column.default matches Some(ValueView::Blob(_)),
        column.default matches Some(ValueView::Blob(bytes)) ==> column.ty == Type::Blob(
            bytes.len() as usize,
        ),
{
}

/// Describes how to define a column in statements like
/// [`StatementCreateTable`](crate::sql::StatementCreateTable).
///
/// A definition is made from a name and a type and changed through its
/// setters only. They keep the type of the default value compatible with the
/// type of the column: no definition exists of which that does not hold.
#[derive(Debug)]
pub struct ColumnDef {
    /// The name of the column.
    name: String,
    /// The datatype of the column.
    ty: Type,
    /// Whether this column auto-increments.
    auto_increment: bool,
    /// Whether this column can be NULL, but negated (i.e., `false` means it can be NULL, `true` means it cannot).
    not_null: bool,
    /// Whether new rows will have this column initialized to a default value or not. If so, then this fields denotes that value.
    default: Option<Value>,
}

impl View for ColumnDef {
    type V = ColumnDefView;

    closed spec fn view(&self) -> ColumnDefView {
        ColumnDefView {
            name: self.name@,
            ty: self.ty,
            auto_increment: self.auto_increment,
            not_null: self.not_null,
            default: match self.default {
                Some(value) => Some(value@),
                None => None,
            },
        }
    }
}

impl DeepView for ColumnDef {
    type V = ColumnDefView;

    open spec fn deep_view(&self) -> ColumnDefView {
        self@
    }
}

impl Clone for ColumnDef {
    fn clone(&self) -> (r: Self)
        ensures
            r@ == self@,
    {
        proof {
            use_type_invariant(self);
        }
        let default = match &self.default {
            Some(value) => Some(value.clone()),
            None => None,
        };
        ColumnDef {
            name: self.name.clone(),
            ty: self.ty,
            auto_increment: self.auto_increment,
            not_null: self.not_null,
            default,
        }
    }
}

impl ColumnDef {
    #[verifier::type_invariant]
    spec fn default_fits(self) -> bool {
        self@.wf()
    }

    /// Creates a new ColumnDef from a name and type only.
    ///
    /// All optional things (e.g., `AUTO_INCREMENT`) are not used. Use the builder methods for that.
    ///
    /// # Arguments
    /// - `name`: The name of the column.
    /// - `ty`: The data type of the column, as a [`Type`].
    ///
    /// # Returns
    /// A new [`ColumnDef`]: nullable, not auto-incrementing, without default value.
    pub fn new(name: &str, ty: Type) -> (r: Self)
        ensures
            r@ == (ColumnDefView {
                name: name@,
                ty,
                auto_increment: false,
                not_null: false,
                default: None,
            }),
            r@.wf(),
    {
        ColumnDef {
            name: String::from_str(name),
            ty,
            auto_increment: false,
            not_null: false,
            default: None,
        }
    }

    /// Changes the name of this column.
    ///
    /// # Arguments
    /// - `name`: The name to change into.
    ///
    /// # Returns
    /// Self for chaining.
    pub fn name(self, name: &str) -> (r: Self)
        ensures
            r@ == (ColumnDefView { name: name@, ..self@ }),
            r@.wf(),
    {
        proof {
            use_type_invariant(&self);
        }
        let mut this = self;
        this.name = String::from_str(name);
        this
    }

    /// Changes the type of this column in place.
    ///
    /// # Errors
    /// Fails with [`Error::TypeMismatch`] where the column has a default
    /// value whose type is not compatible with `ty`. The column is then left
    /// as it was.
    pub fn set_ty(&mut self, ty: Type) -> (r: Result<(), Error>)
        ensures
            r is Ok <==> old(self)@.with_ty(ty).wf(),
            r is Ok ==> final(self)@ == old(self)@.with_ty(ty),
            r matches Err(err) ==> final(self)@ == old(self)@ && err == (Error::TypeMismatch {
                attempted: old(self)@.default->0.type_of(),
                required: ty,
            }),
            final(self)@.wf(),
    {
        proof {
            use_type_invariant(&*self);
        }
        if let Some(default) = &self.default {
            let attempted = default.ty();
            if !attempted.compatible_with(&ty) {
                return Err(Error::TypeMismatch { attempted, required: ty });
            }
        }
        self.ty = ty;
        Ok(())
    }

    /// Changes the type of this column.
    ///
    /// # Arguments
    /// - `ty`: The type to change into.
    ///
    /// # Returns
    /// Self for chaining.
    ///
    /// # Errors
    /// Fails with [`Error::TypeMismatch`] where the column has a default
    /// value whose type is not compatible with `ty`.
    pub fn ty(self, ty: Type) -> (r: Result<Self, Error>)
        ensures
            r is Ok <==> self@.with_ty(ty).wf(),
            r matches Ok(column) ==> column@ == self@.with_ty(ty),
            r matches Err(err) ==> err == (Error::TypeMismatch {
                attempted: self@.default->0.type_of(),
                required: ty,
            }),
    {
        let mut this = self;
        match this.set_ty(ty) {
            Ok(()) => Ok(this),
            Err(err) => Err(err),
        }
    }

    /// Changes whether this column will automatically increment for every new row.
    ///
    /// # Arguments
    /// - `auto_increment`: Whether to enable this option or not.
    ///
    /// # Returns
    /// Self for chaining.
    pub fn auto_increment(self, auto_increment: bool) -> (r: Self)
        ensures
            r@ == (ColumnDefView { auto_increment, ..self@ }),
            r@.wf(),
    {
        proof {
            use_type_invariant(&self);
        }
        let mut this = self;
        this.auto_increment = auto_increment;
        this
    }

    /// Changes whether this column can have NULL in or not.
    ///
    /// # Arguments
    /// - `not_null`: Whether to enable this option or not. Note that this is _reversed_ (i.e., enter `false` to allow NULL).
    ///
    /// # Returns
    /// Self for chaining.
    pub fn not_null(self, not_null: bool) -> (r: Self)
        ensures
            r@ == (ColumnDefView { not_null, ..self@ }),
            r@.wf(),
    {
        proof {
            use_type_invariant(&self);
        }
        let mut this = self;
        this.not_null = not_null;
        this
    }

    /// Changes in place whether new rows will be instantiated with a default value.
    ///
    /// # Errors
    /// Fails with [`Error::TypeMismatch`] where a value is given whose type
    /// is not compatible with the type of the column. The column is then
    /// left as it was.
    pub fn set_default(&mut self, default: Option<Value>) -> (r: Result<(), Error>)
        ensures
            r is Ok <==> old(self)@.with_default(default.deep_view()).wf(),
            r is Ok ==> final(self)@ == old(self)@.with_default(default.deep_view()),
            r matches Err(err) ==> final(self)@ == old(self)@ && err == (Error::TypeMismatch {
                attempted: default->0@.type_of(),
                required: old(self)@.ty,
            }),
            final(self)@.wf(),
    {
        proof {
            use_type_invariant(&*self);
        }
        if let Some(value) = &default {
            let attempted = value.ty();
            if !attempted.compatible_with(&self.ty) {
                return Err(Error::TypeMismatch { attempted, required: self.ty });
            }
        }
        self.default = default;
        Ok(())
    }

    /// Changes whether new rows will be instantiated with a default value.
    ///
    /// # Arguments
    /// - `default`: If [`Some`], then the column will be instantiated with this value; else, enter [`None`].
    ///
    /// # Returns
    /// Self for chaining.
    ///
    /// # Errors
    /// Fails with [`Error::TypeMismatch`] where a value is given whose type
    /// is not compatible with the type of the column.
    pub fn default(self, default: Option<Value>) -> (r: Result<Self, Error>)
        ensures
            r is Ok <==> self@.with_default(default.deep_view()).wf(),
            r matches Ok(column) ==> column@ == self@.with_default(default.deep_view()),
            r matches Err(err) ==> err == (Error::TypeMismatch {
                attempted: default->0@.type_of(),
                required: self@.ty,
            }),
    {
        let mut this = self;
        match this.set_default(default) {
            Ok(()) => Ok(this),
            Err(err) => Err(err),
        }
    }
}

impl ColumnDef {
    /// Returns the name of the column.
    pub fn get_name(&self) -> (r: &str)
        ensures
            r@ == self@.name,
    {
        self.name.as_str()
    }

    /// Returns the datatype of the column.
    pub fn get_ty(&self) -> (r: Type)
        ensures
            r == self@.ty,
    {
        self.ty
    }

    /// Returns whether this column auto-increments.
    pub fn is_auto_increment(&self) -> (r: bool)
        ensures
            r == self@.auto_increment,
    {
        self.auto_increment
    }

    /// Returns whether this column refuses NULL.
    pub fn is_not_null(&self) -> (r: bool)
        ensures
            r == self@.not_null,
    {
        self.not_null
    }

    /// Returns whether this definition can be written as SQL, which it can
    /// unless its default value is a binary large object.
    pub fn has_sql(&self) -> (r: bool)
        ensures
            r == self@.sql() is Some,
    {
        match &self.default {
            Some(default) => default.has_literal(),
            None => true,
        }
    }

    /// Returns the value that new rows have in this column, if any. Its
    /// type is compatible with the type of the column.
    pub fn get_default(&self) -> (r: Option<&Value>)
        ensures
            r.deep_view() == self@.default,
            r matches Some(value) ==> value@.type_of().compatible(self@.ty),
    {
        proof {
            use_type_invariant(self);
        }
        self.default.as_ref()
    }
}

impl ToSql for ColumnDef {
    open spec fn sql_text(&self) -> Option<Seq<char>> {
        self@.sql()
    }

    fn fmt_sql(&self, f: &mut String) -> (r: Result<(), Error>) {
        // Settle first whether the default value can be written at all
        if let Some(default) = &self.default {
            if !default.has_literal() {
                return Err(Error::NotImplemented);
            }
        }
        // Write the name
        f.append("\"");
        f.append(self.name.as_str());
        f.append("\" ");
        // Write the type
        self.ty.write_sql(f);
        // Write any options
        if self.auto_increment {
            f.append(" AUTO_INCREMENT");
        }
        if self.not_null {
            f.append(" NOT NULL");
        }
        if let Some(default) = &self.default {
            f.append(" DEFAULT ");
            if let Err(err) = default.fmt_sql(f) {
                return Err(err);
            }
        }
        assert(final(f)@ =~= old(f)@ + self@.sql()->0);
        Ok(())
    }
}

} // verus!
