//! The code sample that the website shows in the theme's colours: a user
//! record with validated fields, and a small request router.

use vstd::prelude::*;
use vstd::string::*;
use crate::text::same_text;

verus! {

/// The methods of an HTTP request.
#[derive(Debug, Clone, Copy, PartialEq, Eq, Structural)]
pub enum HttpMethod {
    Get,
    Post,
    Put,
    Delete,
    Patch,
}

/// What can go wrong in the application.
#[derive(Debug)]
pub enum AppError {
    NotFound(String),
    InvalidInput { field: String, message: String },
    DatabaseError(String),
    Unauthorized,
}

/// The view of [`AppError`].
pub enum AppErrorView {
    NotFound(Seq<char>),
    InvalidInput { field: Seq<char>, message: Seq<char> },
    DatabaseError(Seq<char>),
    Unauthorized,
}

impl View for AppError {
    type V = AppErrorView;

    open spec fn view(&self) -> AppErrorView {
        match *self {
            AppError::NotFound(msg) => AppErrorView::NotFound(msg@),
            AppError::InvalidInput { field, message } => AppErrorView::InvalidInput {
                field: field@,
                message: message@,
            },
            AppError::DatabaseError(msg) => AppErrorView::DatabaseError(msg@),
            AppError::Unauthorized => AppErrorView::Unauthorized,
        }
    }
}

/// The text that describes an error.
pub open spec fn error_text(e: AppErrorView) -> Seq<char> {
    match e {
        AppErrorView::NotFound(msg) => "Not found: "@ + msg,
        AppErrorView::InvalidInput { field, message } => "Invalid input for "@ + field + ": "@
            + message,
        AppErrorView::DatabaseError(msg) => "Database error: "@ + msg,
        AppErrorView::Unauthorized => "Unauthorized access"@,
    }
}

impl AppError {
    /// The text that describes this error.
    pub fn message(&self) -> (res: String)
        ensures
            res@ == error_text(self@),
    {
        match self {
            AppError::NotFound(msg) => {
                let mut out = String::from_str("Not found: ");
                out.append(msg.as_str());
                out
            },
            AppError::InvalidInput { field, message } => {
                let mut out = String::from_str("Invalid input for ");
                out.append(field.as_str());
                out.append(": ");
                out.append(message.as_str());
                out
            },
            AppError::DatabaseError(msg) => {
                let mut out = String::from_str("Database error: ");
                out.append(msg.as_str());
                out
            },
            AppError::Unauthorized => String::from_str("Unauthorized access"),
        }
    }
}

/// A type with a text form that it can be read back from.
pub trait Serializable {
    fn serialize(&self) -> String;

    fn deserialize(data: &str) -> Result<Self, AppError> where Self: Sized;
}

/// A user: the name and the address are borrowed, the age is optional.
#[derive(Debug, Clone)]
pub struct User<'a> {
    pub id: u64,
    pub username: &'a str,
    pub email: &'a str,
    pub age: Option<u8>,
    pub is_active: bool,
}

/// The view of [`User`].
pub struct UserView {
    pub id: u64,
    pub username: Seq<char>,
    pub email: Seq<char>,
    pub age: Option<u8>,
    pub is_active: bool,
}

impl<'a> View for User<'a> {
    type V = UserView;

    open spec fn view(&self) -> UserView {
        UserView {
            id: self.id,
            username: self.username@,
            email: self.email@,
            age: self.age,
            is_active: self.is_active,
        }
    }
}

/// The error for a field that holds an unacceptable value.
pub open spec fn invalid_input(field: Seq<char>, message: Seq<char>) -> AppErrorView {
    AppErrorView::InvalidInput { field: field, message: message }
}

/// The greatest age that a user can have.
pub const MAX_AGE: u8 = 150;

/// Whether `s` holds the character `c`.
fn has_char(s: &str, c: char) -> (res: bool)
    ensures
        res == s@.contains(c),
{
    let n: usize = s.unicode_len();
    let mut i: usize = 0;
    while i < n
        invariant
            i <= n,
            n == s@.len(),
            forall|k: int| 0 <= k < i ==> s@[k] != c,
        decreases n - i,
    {
        if s.get_char(i) == c {
            return true;
        }
        i = i + 1;
    }
    false
}

impl<'a> User<'a> {
    /// Makes an active user without an age. The name must not be empty,
    /// and the address must hold an `@`; the name is looked at first.
    pub fn new(id: u64, username: &'a str, email: &'a str) -> (res: Result<User<'a>, AppError>)
        ensures
            username@.len() == 0 ==> res is Err && res->Err_0@ == invalid_input(
                "username"@,
                "Username cannot be empty"@,
            ),
            username@.len() > 0 && !email@.contains('@') ==> res is Err && res->Err_0@
                == invalid_input("email"@, "Invalid email format"@),
            username@.len() > 0 && email@.contains('@') ==> res is Ok && res->Ok_0@ == (UserView {
                id: id,
                username: username@,
                email: email@,
                age: None,
                is_active: true,
            }),
    {
        if username.unicode_len() == 0 {
            return Err(
                AppError::InvalidInput {
                    field: String::from_str("username"),
                    message: String::from_str("Username cannot be empty"),
                },
            );
        }
        if !has_char(email, '@') {
            return Err(
                AppError::InvalidInput {
                    field: String::from_str("email"),
                    message: String::from_str("Invalid email format"),
                },
            );
        }
        Ok(User { id: id, username: username, email: email, age: None, is_active: true })
    }

    /// Sets the user's age. An age above [`MAX_AGE`] is refused and the
    /// user stays as it was.
    pub fn set_age(&mut self, age: u8) -> (res: Result<(), AppError>)
        ensures
            age > MAX_AGE ==> res is Err && res->Err_0@ == invalid_input(
                "age"@,
                "Age must be realistic"@,
            ) && *final(self) == *old(self),
            age <= MAX_AGE ==> res is Ok && final(self)@ == (UserView {
                age: Some(age),
                ..old(self)@
            }),
    {
        if age > MAX_AGE {
            return Err(
                AppError::InvalidInput {
                    field: String::from_str("age"),
                    message: String::from_str("Age must be realistic"),
                },
            );
        }
        self.age = Some(age);
        Ok(())
    }
}

/// A store of items of one type, found again by an id.
pub trait Repository<T> {
    type Error;

    type Id;

    fn find(&self, id: Self::Id) -> Result<T, Self::Error>;

    fn save(&mut self, item: T) -> Result<Self::Id, Self::Error>;

    fn delete(&mut self, id: Self::Id) -> Result<(), Self::Error>;
}

/// The name of a method, as its variant is written.
pub open spec fn method_name(method: HttpMethod) -> Seq<char> {
    match method {
        HttpMethod::Get => "Get"@,
        HttpMethod::Post => "Post"@,
        HttpMethod::Put => "Put"@,
        HttpMethod::Delete => "Delete"@,
        HttpMethod::Patch => "Patch"@,
    }
}

/// Whether a path names one user: it begins with `/users/`.
pub open spec fn is_user_path(path: Seq<char>) -> bool {
    "/users/"@.is_prefix_of(path)
}

/// What follows `/users/` in the path of one user.
pub open spec fn user_id_of(path: Seq<char>) -> Seq<char> {
    path.subrange("/users/"@.len() as int, path.len() as int)
}

/// The answer to a request. The collection `/users` can be listed and
/// added to; one user can be read, updated and deleted; every other
/// request finds no route.
pub open spec fn route(method: HttpMethod, path: Seq<char>) -> Result<Seq<char>, AppErrorView> {
    if method == HttpMethod::Get && path == "/users"@ {
        Ok("List all users"@)
    } else if method == HttpMethod::Get && is_user_path(path) {
        Ok("Get user with id: "@ + user_id_of(path))
    } else if method == HttpMethod::Post && path == "/users"@ {
        Ok("Create new user"@)
    } else if method == HttpMethod::Put && is_user_path(path) {
        Ok("Update user"@)
    } else if method == HttpMethod::Delete && is_user_path(path) {
        Ok("Delete user"@)
    } else {
        Err(AppErrorView::NotFound("Route not found: "@ + method_name(method) + " "@ + path))
    }
}

/// The view of an answer.
pub open spec fn answer_view(res: Result<String, AppError>) -> Result<Seq<char>, AppErrorView> {
    match res {
        Ok(text) => Ok(text@),
        Err(e) => Err(e@),
    }
}

/// The name of a method as a string.
fn method_str(method: HttpMethod) -> (res: &'static str)
    ensures
        res@ == method_name(method),
{
    match method {
        HttpMethod::Get => "Get",
        HttpMethod::Post => "Post",
        HttpMethod::Put => "Put",
        HttpMethod::Delete => "Delete",
        HttpMethod::Patch => "Patch",
    }
}

/// Whether a path begins with `/users/`.
fn names_user(path: &str) -> (res: bool)
    ensures
        res == is_user_path(path@),
        res ==> path@.len() >= 7,
        "/users/"@.len() == 7,
{
    proof {
        reveal_strlit("/users/");
    }
    if path.unicode_len() < 7 {
        return false;
    }
    let head = path.substring_char(0, 7);
    let same = same_text(head, "/users/");
    proof {
        if same {
            assert("/users/"@ =~= path@.subrange(0, 7));
        } else if is_user_path(path@) {
            assert(path@.subrange(0, 7) =~= "/users/"@);
        }
    }
    same
}

/// Answers a request.
pub fn process_request(method: HttpMethod, path: &str) -> (res: Result<String, AppError>)
    ensures
        answer_view(res) == route(method, path@),
{
    let user_path = names_user(path);
    let users = same_text(path, "/users");
    if method == HttpMethod::Get && users {
        Ok(String::from_str("List all users"))
    } else if method == HttpMethod::Get && user_path {
        let mut out = String::from_str("Get user with id: ");
        out.append(path.substring_char(7, path.unicode_len()));
        Ok(out)
    } else if method == HttpMethod::Post && users {
        Ok(String::from_str("Create new user"))
    } else if method == HttpMethod::Put && user_path {
        Ok(String::from_str("Update user"))
    } else if method == HttpMethod::Delete && user_path {
        Ok(String::from_str("Delete user"))
    } else {
        let mut out = String::from_str("Route not found: ");
        out.append(method_str(method));
        out.append(" ");
        out.append(path);
        Err(AppError::NotFound(out))
    }
}

} // verus!
