use user_service::model::{Repository, User};
use user_service::service::UserService;

struct EmptyRepo;

impl Repository for EmptyRepo {
    fn find_by_id(&self, _id: u64) -> Option<&User> {
        None
    }

    fn save(&mut self, _user: User) -> Result<(), String> {
        Ok(())
    }
}

struct RecordingRepo {
    users: Vec<User>,
}

impl Repository for RecordingRepo {
    fn find_by_id(&self, id: u64) -> Option<&User> {
        self.users.iter().find(|u| u.id == id)
    }

    fn save(&mut self, user: User) -> Result<(), String> {
        self.users.push(user);
        Ok(())
    }
}

struct FailingRepo;

impl Repository for FailingRepo {
    fn find_by_id(&self, _id: u64) -> Option<&User> {
        None
    }

    fn save(&mut self, _user: User) -> Result<(), String> {
        Err(String::from("persistence failure"))
    }
}

#[test]
fn get_user_on_empty_store_returns_none() {
    let service = UserService::new(EmptyRepo);
    assert!(service.get_user(0).is_none());
    assert!(service.get_user(7).is_none());
    assert!(service.get_user(u64::MAX).is_none());
}

#[test]
fn create_user_succeeds_when_save_succeeds() {
    let mut service = UserService::new(EmptyRepo);
    let r = service.create_user(String::from("Bob"), String::from("bob@x.com"));
    assert!(r.is_ok());
}

#[test]
fn created_user_is_found_in_recording_store() {
    let mut service = UserService::new(RecordingRepo { users: Vec::new() });
    let r = service.create_user(String::from("Bob"), String::from("bob@x.com"));
    assert!(r.is_ok());
    let found = service.get_user(0).expect("the saved user should be found");
    assert_eq!(found.name, "Bob");
    assert_eq!(found.email, "bob@x.com");
}

#[test]
fn create_user_forwards_error_text_unchanged() {
    let mut service = UserService::new(FailingRepo);
    let r = service.create_user(String::from("Bob"), String::from("bob@x.com"));
    assert_eq!(r, Err(String::from("persistence failure")));
}
