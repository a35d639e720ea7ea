use babangida::api::{invalid, public_message, ApiError};
use babangida::application::ApplicationError;
use babangida::domain::community::CommunityError;
use babangida::domain::identity::{HandleError, InviteError};
use babangida::domain::marketplace::ListingTitleError;
use babangida::domain::social::SubcultureError;
use babangida::domain::RepositoryError;
use babangida::shared::time::Duration;
use babangida::text::{decimal, seconds_text};

#[test]
fn numbers_are_written_in_decimal() {
    assert_eq!(decimal(0), "0");
    assert_eq!(decimal(1_000_000_000), "1000000000");
    assert_eq!(decimal(u128::MAX), u128::MAX.to_string());
    assert_eq!(seconds_text(21_600_000_000_000), "21600");
    assert_eq!(seconds_text(1_999_999_999), "1");
    assert_eq!(seconds_text(-500_000_000), "0");
    assert_eq!(seconds_text(-2_500_000_000), "-2");
    assert_eq!(seconds_text(i128::MIN), (i128::MIN / 1_000_000_000).to_string());
}

#[test]
fn errors_write_their_texts() {
    assert_eq!(HandleError::TooShort { len: 2 }.message(), "handle слишком короткий: 2 символов");
    assert_eq!(HandleError::InvalidChar('!').message(), "недопустимый символ в handle: '!'");
    assert_eq!(
        InviteError::QuotaExceeded { active: 2, limit: 2 }.message(),
        "исчерпана квота активных инвайтов: 2/2"
    );
    assert_eq!(
        InviteError::CooldownActive { retry_after: Duration::hours(6) }.message(),
        "кулдаун выдачи: ещё 21600 c"
    );
    assert_eq!(
        ListingTitleError::TooLong { len: 121 }.message(),
        "заголовок товара слишком длинный: 121 символов (максимум 120)"
    );
    assert_eq!(SubcultureError.message(), "неизвестная субкультура");
    assert_eq!(
        ApplicationError::Community(CommunityError::SoleOwner).message(),
        "нельзя оставить сообщество без владельца"
    );
    assert_eq!(ApplicationError::NotFound("group").message(), "не найдено: group");
}

#[test]
fn answers_hide_the_store_detail() {
    let down = ApiError::App(ApplicationError::Repository(RepositoryError::Unavailable("pool timed out".to_owned())));
    assert_eq!(public_message(&down), "хранилище недоступно");
    assert_eq!(
        ApplicationError::Repository(RepositoryError::Unavailable("pool timed out".to_owned())).message(),
        "хранилище недоступно: pool timed out"
    );
    assert_eq!(public_message(&ApiError::App(ApplicationError::Forbidden("только админ"))), "запрещено: только админ");
    assert_eq!(public_message(&invalid("пост пустой".to_owned())), "пост пустой");
}
